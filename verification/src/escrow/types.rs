//! Jobs, milestones and reputations.

use vstd::prelude::*;

use crate::address::Address;
use crate::bytes::copy_bytes;

verus! {

/// The least number of ledgers that a job's release period may have.
pub const RELEASE_AFTER_LEDGERS: u32 = 10;

/// The number of ledgers from a job's creation to its deadline: 90 days at 5 seconds a ledger.
pub const DEFAULT_DEADLINE_LEDGERS: u32 = 1_555_200;

/// The greatest length of a milestone's name, in bytes.
pub const MAX_MILESTONE_NAME_LEN: u32 = 64;

/// Where a job stands.
#[derive(Clone, Copy, Debug, PartialEq, Eq, Structural)]
pub enum JobStatus {
    Escrowed,
    PartiallyReleased,
    Completed,
    Disputed,
}

/// A part of a job that is paid for on its own.
#[derive(Debug, PartialEq, Eq)]
pub struct Milestone {
    pub name: Vec<u8>,
    /// The share of the job's amount, from 0 to 100.
    pub percentage: u32,
    pub released: bool,
    pub disputed: bool,
    pub oracle: Option<Address>,
    pub verified: bool,
    pub proof_hash: Option<[u8; 32]>,
}

/// What a milestone is.
#[verifier::ext_equal]
pub struct MilestoneModel {
    pub name: Seq<u8>,
    pub percentage: u32,
    pub released: bool,
    pub disputed: bool,
    pub oracle: Option<Address>,
    pub verified: bool,
    pub proof_hash: Option<[u8; 32]>,
}

impl View for Milestone {
    type V = MilestoneModel;

    open spec fn view(&self) -> MilestoneModel {
        MilestoneModel {
            name: self.name@,
            percentage: self.percentage,
            released: self.released,
            disputed: self.disputed,
            oracle: self.oracle,
            verified: self.verified,
            proof_hash: self.proof_hash,
        }
    }
}

impl Clone for Milestone {
    fn clone(&self) -> (r: Self)
        ensures
            r@ == self@,
    {
        Milestone {
            name: copy_bytes(&self.name),
            percentage: self.percentage,
            released: self.released,
            disputed: self.disputed,
            oracle: self.oracle,
            verified: self.verified,
            proof_hash: self.proof_hash,
        }
    }
}

/// What a list of milestones is.
pub open spec fn milestones_model(milestones: Seq<Milestone>) -> Seq<MilestoneModel> {
    Seq::new(milestones.len(), |i: int| milestones[i]@)
}

/// A copy of a list of milestones.
pub fn copy_milestones(milestones: &Vec<Milestone>) -> (r: Vec<Milestone>)
    ensures
        milestones_model(r@) == milestones_model(milestones@),
{
    let mut out: Vec<Milestone> = Vec::new();
    let mut i: usize = 0;
    while i < milestones.len()
        invariant
            i <= milestones.len(),
            out@.len() == i,
            forall|j: int| 0 <= j < i ==> (#[trigger] out@[j])@ == milestones@[j]@,
        decreases milestones.len() - i,
    {
        out.push(milestones[i].clone());
        i = i + 1;
    }
    assert(milestones_model(out@) =~= milestones_model(milestones@));
    out
}

/// A job whose amount is held until its milestones are released.
#[derive(Debug)]
pub struct Job {
    pub id: Vec<u8>,
    pub client: Address,
    pub freelancer: Address,
    pub token: Address,
    pub amount: i128,
    pub status: JobStatus,
    pub milestones: Vec<Milestone>,
    pub disputed: bool,
    /// The ledger from which on the freelancer may claim milestones.
    pub release_after: u32,
    /// The ledger from which on the client may ask for a refund.
    pub deadline: u32,
}

/// What a job is.
#[verifier::ext_equal]
pub struct JobModel {
    pub id: Seq<u8>,
    pub client: Address,
    pub freelancer: Address,
    pub token: Address,
    pub amount: i128,
    pub status: JobStatus,
    pub milestones: Seq<MilestoneModel>,
    pub disputed: bool,
    pub release_after: u32,
    pub deadline: u32,
}

impl View for Job {
    type V = JobModel;

    open spec fn view(&self) -> JobModel {
        JobModel {
            id: self.id@,
            client: self.client,
            freelancer: self.freelancer,
            token: self.token,
            amount: self.amount,
            status: self.status,
            milestones: milestones_model(self.milestones@),
            disputed: self.disputed,
            release_after: self.release_after,
            deadline: self.deadline,
        }
    }
}

impl Clone for Job {
    fn clone(&self) -> (r: Self)
        ensures
            r@ == self@,
    {
        Job {
            id: copy_bytes(&self.id),
            client: self.client,
            freelancer: self.freelancer,
            token: self.token,
            amount: self.amount,
            status: self.status,
            milestones: copy_milestones(&self.milestones),
            disputed: self.disputed,
            release_after: self.release_after,
            deadline: self.deadline,
        }
    }
}

/// The record of a freelancer's jobs. Its counts never go down.
#[derive(Clone, Copy, Debug, PartialEq, Eq, Structural)]
pub struct FreelancerReputation {
    pub total_jobs: u32,
    pub completed_jobs: u32,
    pub disputed_jobs: u32,
    pub total_value_completed: i128,
    pub on_time_completions: u32,
    pub created_at: u32,
}

impl View for FreelancerReputation {
    type V = FreelancerReputation;

    open spec fn view(&self) -> FreelancerReputation {
        *self
    }
}

/// What a milestone is told by its fields.
pub proof fn law_what_a_milestone_is(m: Milestone)
    ensures
        m@.name == m.name@,
        m@.percentage == m.percentage,
        m@.released == m.released,
        m@.disputed == m.disputed,
        m@.oracle == m.oracle,
        m@.verified == m.verified,
        m@.proof_hash == m.proof_hash,
{
}

/// What a job is told by its fields, and its milestones one by one.
pub proof fn law_what_a_job_is(job: Job, i: int)
    ensures
        job@.id == job.id@,
        job@.client == job.client,
        job@.freelancer == job.freelancer,
        job@.token == job.token,
        job@.amount == job.amount,
        job@.status == job.status,
        job@.milestones.len() == job.milestones@.len(),
        0 <= i < job.milestones@.len() ==> job@.milestones[i] == job.milestones@[i]@,
        job@.disputed == job.disputed,
        job@.release_after == job.release_after,
        job@.deadline == job.deadline,
{
}

/// A list of milestones is told by each of them.
pub proof fn law_what_a_list_of_milestones_is(milestones: Seq<Milestone>, i: int)
    ensures
        milestones_model(milestones).len() == milestones.len(),
        0 <= i < milestones.len() ==> milestones_model(milestones)[i] == milestones[i]@,
{
}

} // verus!
