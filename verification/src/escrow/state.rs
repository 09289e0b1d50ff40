//! The state of the escrow contract.

use vstd::prelude::*;

use crate::address::Address;
use crate::bytes::copy_bytes;
use crate::escrow::types::{FreelancerReputation, Job, JobModel};
use crate::table::Table;

verus! {

/// The addresses that approve administrative calls, and how many of them it takes.
#[derive(Debug)]
pub struct AdminSet {
    pub members: Vec<Address>,
    pub threshold: u32,
}

/// What an admin set is.
#[verifier::ext_equal]
pub struct AdminModel {
    pub members: Seq<Address>,
    pub threshold: u32,
}

impl View for AdminSet {
    type V = AdminModel;

    open spec fn view(&self) -> AdminModel {
        AdminModel { members: self.members@, threshold: self.threshold }
    }
}

/// The escrow contract: jobs by id, in order of creation, with what is recorded of them.
pub struct EscrowContract {
    pub admins: Option<AdminSet>,
    pub jobs: Table<Vec<u8>, Job>,
    pub job_count: u32,
    pub job_ids: Vec<Vec<u8>>,
    pub amendments: Table<Vec<u8>, u32>,
    pub reputations: Table<Address, FreelancerReputation>,
    /// The jobs whose dispute is already part of the freelancer's record.
    pub disputes_counted: Table<Vec<u8>, bool>,
    /// The jobs that were brought to an end: by payment, which their freelancer's record counts, or,
    /// with `false`, by a refund, which it does not.
    pub completions: Table<Vec<u8>, bool>,
}

/// What the state of the escrow contract is.
#[verifier::ext_equal]
pub struct EscrowModel {
    pub admins: Option<AdminModel>,
    pub jobs: Map<Seq<u8>, JobModel>,
    pub job_count: u32,
    pub job_ids: Seq<Seq<u8>>,
    pub amendments: Map<Seq<u8>, u32>,
    pub reputations: Map<Address, FreelancerReputation>,
    pub disputes_counted: Map<Seq<u8>, bool>,
    pub completions: Map<Seq<u8>, bool>,
}

/// What a list of byte strings is.
pub open spec fn ids_model(ids: Seq<Vec<u8>>) -> Seq<Seq<u8>> {
    Seq::new(ids.len(), |i: int| ids[i]@)
}

impl View for EscrowContract {
    type V = EscrowModel;

    open spec fn view(&self) -> EscrowModel {
        EscrowModel {
            admins: match self.admins {
                Some(a) => Some(a@),
                None => None,
            },
            jobs: self.jobs@,
            job_count: self.job_count,
            job_ids: ids_model(self.job_ids@),
            amendments: self.amendments@,
            reputations: self.reputations@,
            disputes_counted: self.disputes_counted@,
            completions: self.completions@,
        }
    }
}

/// The state before the first call.
pub open spec fn empty_state() -> EscrowModel {
    EscrowModel {
        admins: None,
        jobs: Map::empty(),
        job_count: 0,
        job_ids: Seq::empty(),
        amendments: Map::empty(),
        reputations: Map::empty(),
        disputes_counted: Map::empty(),
        completions: Map::empty(),
    }
}

impl EscrowContract {
    /// The contract before the first call.
    pub fn new() -> (r: Self)
        ensures
            r@ == empty_state(),
    {
        let r = EscrowContract {
            admins: None,
            jobs: Table::new(),
            job_count: 0,
            job_ids: Vec::new(),
            amendments: Table::new(),
            reputations: Table::new(),
            disputes_counted: Table::new(),
            completions: Table::new(),
        };
        assert(r@.job_ids =~= Seq::empty());
        r
    }
}

/// A copy of a list of byte strings.
pub fn copy_ids(ids: &Vec<Vec<u8>>) -> (r: Vec<Vec<u8>>)
    ensures
        ids_model(r@) == ids_model(ids@),
{
    let mut out: Vec<Vec<u8>> = Vec::new();
    let mut i: usize = 0;
    while i < ids.len()
        invariant
            i <= ids.len(),
            out@.len() == i,
            forall|j: int| 0 <= j < i ==> (#[trigger] out@[j])@ == ids@[j]@,
        decreases ids.len() - i,
    {
        out.push(copy_bytes(&ids[i]));
        i = i + 1;
    }
    assert(ids_model(out@) =~= ids_model(ids@));
    out
}

/// What the state is told by its fields, and the ids of the jobs one by one.
pub proof fn law_what_the_state_is(c: EscrowContract, i: int)
    ensures
        c@.admins is Some <==> c.admins is Some,
        c.admins matches Some(a) ==> c@.admins->0.members == a.members@ && c@.admins->0.threshold
            == a.threshold,
        c@.jobs == c.jobs@,
        c@.job_count == c.job_count,
        c@.job_ids.len() == c.job_ids@.len(),
        0 <= i < c.job_ids@.len() ==> c@.job_ids[i] == c.job_ids@[i]@,
        c@.amendments == c.amendments@,
        c@.reputations == c.reputations@,
        c@.disputes_counted == c.disputes_counted@,
        c@.completions == c.completions@,
{
}

/// A list of ids is told by each of them.
pub proof fn law_what_a_list_of_ids_is(ids: Seq<Vec<u8>>, i: int)
    ensures
        ids_model(ids).len() == ids.len(),
        0 <= i < ids.len() ==> ids_model(ids)[i] == ids[i]@,
{
}

} // verus!
