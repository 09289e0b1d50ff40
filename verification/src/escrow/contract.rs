//! The calls on the escrow contract.
//!
//! Each call takes the state from one model to the next as `transitions` says. Who makes a call
//! has to be authenticated before: a call takes the addresses in its arguments for granted.

use vstd::prelude::*;

use crate::address::{contains_address, copy_addresses, Address};
use crate::bytes::copy_bytes;
use crate::context::{CallContext, TokenTransfer};
use crate::escrow::admin::{count_distinct_admins, remove_address};
use crate::escrow::error::{EscrowError, EscrowFailure, EscrowTrap};
use crate::escrow::events::{EscrowEvent, Receipt, ReputationUpdate};
use crate::escrow::milestones;
use crate::escrow::milestones::{
    check_amendment, check_percentages, compute_proportional_payout, compute_remaining_funds,
    has_disputed, has_released, status_of, validate_milestones,
};
use crate::escrow::state;
use crate::escrow::state::{copy_ids, AdminSet, EscrowContract};
use crate::escrow::transitions;
use crate::escrow::types;
use crate::escrow::types::{
    FreelancerReputation, Job, JobModel, JobStatus, Milestone,
    DEFAULT_DEADLINE_LEDGERS, RELEASE_AFTER_LEDGERS,
};

verus! {

/// Puts `m` in the place of milestone `i`.
fn put_milestone(job: &mut Job, i: usize, m: Milestone)
    requires
        i < old(job).milestones@.len(),
    ensures
        final(job).milestones@.len() == old(job).milestones@.len(),
        final(job)@ == (JobModel {
            milestones: old(job)@.milestones.update(i as int, m@),
            ..old(job)@
        }),
{
    let ghost before = job.milestones@;
    job.milestones.set(i, m);
    assert(types::milestones_model(job.milestones@) =~= types::milestones_model(before).update(
        i as int,
        m@,
    ));
}

/// Settles every milestone of a job and closes it.
fn close_job(job: &mut Job)
    ensures
        final(job)@ == transitions::closed(old(job)@),
{
    let ghost before = job@;
    let mut i: usize = 0;
    while i < job.milestones.len()
        invariant
            i <= job.milestones@.len(),
            job@ == (JobModel { milestones: job@.milestones, ..before }),
            job@.milestones.len() == before.milestones.len(),
            forall|j: int|
                0 <= j < i ==> #[trigger] job@.milestones[j] == transitions::all_settled(
                    before.milestones,
                )[j],
            forall|j: int|
                i <= j < job@.milestones.len() ==> #[trigger] job@.milestones[j]
                    == before.milestones[j],
        decreases job.milestones@.len() - i,
    {
        assert(job@.milestones[i as int] == before.milestones[i as int]);
        let mut milestone = job.milestones[i].clone();
        milestone.released = true;
        milestone.disputed = false;
        put_milestone(job, i, milestone);
        i = i + 1;
    }
    assert(job@.milestones =~= transitions::all_settled(before.milestones));
    job.status = JobStatus::Completed;
    job.disputed = false;
}

/// A receipt that holds an event and nothing else.
fn announce(event: EscrowEvent<Vec<u8>>) -> (r: Receipt<Vec<u8>>)
    ensures
        r@ == transitions::announcement(event@),
{
    Receipt { reputation: None, event, transfer: None }
}

/// A payment out of a job's escrow, where something is due.
fn pay(ctx: &CallContext, job: &Job, to: Address, amount: i128) -> (r: Option<TokenTransfer>)
    ensures
        r == transitions::payment(*ctx, job@, to, amount as int),
{
    if amount > 0 {
        Some(TokenTransfer { token: job.token, from: ctx.contract, to, amount })
    } else {
        None
    }
}

impl EscrowContract {
    /// The record of a freelancer.
    fn read_reputation(&self, freelancer: &Address) -> (r: FreelancerReputation)
        ensures
            r == transitions::reputation_of(self@, *freelancer),
    {
        match self.reputations.get(freelancer) {
            Some(r) => *r,
            None => FreelancerReputation {
                total_jobs: 0,
                completed_jobs: 0,
                disputed_jobs: 0,
                total_value_completed: 0,
                on_time_completions: 0,
                created_at: 0,
            },
        }
    }

    /// The record of a freelancer who is given one more job.
    fn reputation_job_created(&self, freelancer: &Address, sequence: u32) -> (r: Result<
        FreelancerReputation,
        EscrowTrap,
    >)
        ensures
            r == transitions::reputation_created(self@, *freelancer, sequence),
    {
        let is_new = !self.reputations.has(freelancer);
        let mut reputation = self.read_reputation(freelancer);
        if is_new {
            reputation.created_at = sequence;
        }
        match reputation.total_jobs.checked_add(1) {
            Some(n) => {
                reputation.total_jobs = n;
                Ok(reputation)
            },
            None => Err(EscrowTrap::TotalJobsOverflow),
        }
    }

    /// Stores a disputed job, and counts its first dispute in the freelancer's record.
    fn reputation_job_disputed(&mut self, job_id: Vec<u8>, job: Job) -> (r: Result<(), EscrowTrap>)
        ensures
            match transitions::freeze(old(self)@, job_id@, job@) {
                Ok(next) => r == Ok::<(), EscrowTrap>(()) && final(self)@ == next,
                Err(t) => r == Err::<(), EscrowTrap>(t) && final(self)@ == old(self)@,
            },
    {
        if !self.disputes_counted.has(&job.id) {
            let mut reputation = self.read_reputation(&job.freelancer);
            match reputation.disputed_jobs.checked_add(1) {
                Some(n) => {
                    reputation.disputed_jobs = n;
                },
                None => {
                    return Err(EscrowTrap::DisputedJobsOverflow);
                },
            }
            self.reputations.set(job.freelancer, reputation);
            self.disputes_counted.set(copy_bytes(&job.id), true);
        }
        self.jobs.set(job_id, job);
        Ok(())
    }

    /// The record of a job's freelancer with that job completed.
    fn reputation_job_completed(&self, job: &Job, sequence: u32) -> (r: Result<
        FreelancerReputation,
        EscrowTrap,
    >)
        ensures
            r == transitions::reputation_completed(
                transitions::reputation_of(self@, job.freelancer),
                job.amount,
                job.deadline,
                sequence,
            ),
    {
        let mut reputation = self.read_reputation(&job.freelancer);
        match reputation.completed_jobs.checked_add(1) {
            Some(n) => {
                reputation.completed_jobs = n;
            },
            None => {
                return Err(EscrowTrap::CompletedJobsOverflow);
            },
        }
        match reputation.total_value_completed.checked_add(job.amount) {
            Some(n) => {
                reputation.total_value_completed = n;
            },
            None => {
                return Err(EscrowTrap::TotalValueCompletedOverflow);
            },
        }
        if sequence <= job.deadline {
            match reputation.on_time_completions.checked_add(1) {
                Some(n) => {
                    reputation.on_time_completions = n;
                },
                None => {
                    return Err(EscrowTrap::OnTimeCompletionsOverflow);
                },
            }
        }
        Ok(reputation)
    }

    /// Stores a paid job, and counts it in the freelancer's record if it is newly completed.
    fn settle(&mut self, job_id: Vec<u8>, job: Job, sequence: u32) -> (r: Result<
        Option<ReputationUpdate>,
        EscrowTrap,
    >)
        ensures
            match transitions::settle(old(self)@, job_id@, job@, sequence) {
                Ok((next, update)) => r == Ok::<Option<ReputationUpdate>, EscrowTrap>(update)
                    && final(self)@ == next,
                Err(t) => r == Err::<Option<ReputationUpdate>, EscrowTrap>(t) && final(self)@
                    == old(self)@,
            },
    {
        if job.status == JobStatus::Completed && !self.completions.has(&job.id) {
            match self.reputation_job_completed(&job, sequence) {
                Ok(reputation) => {
                    let update = ReputationUpdate {
                        freelancer: job.freelancer,
                        completed_jobs: reputation.completed_jobs,
                        disputed_jobs: reputation.disputed_jobs,
                        total_value_completed: reputation.total_value_completed,
                    };
                    self.reputations.set(job.freelancer, reputation);
                    self.completions.set(copy_bytes(&job.id), true);
                    self.jobs.set(job_id, job);
                    Ok(Some(update))
                },
                Err(t) => Err(t),
            }
        } else {
            self.jobs.set(job_id, job);
            Ok(None)
        }
    }

    /// Whether enough distinct admins are among the signers.
    fn require_admin(&self, signers: &Vec<Address>) -> (r: Result<(), EscrowFailure>)
        ensures
            match transitions::admin_refusal(self@, signers@) {
                Some(f) => r == Err::<(), EscrowFailure>(f),
                None => r == Ok::<(), EscrowFailure>(()) && self.admins is Some,
            },
    {
        match &self.admins {
            None => Err(EscrowFailure::Trap(EscrowTrap::NotInitialized)),
            Some(admins) => {
                if count_distinct_admins(&admins.members, signers) < admins.threshold as usize {
                    Err(EscrowFailure::Error(EscrowError::InsufficientAdminSignatures))
                } else {
                    Ok(())
                }
            },
        }
    }

    /// A copy of the job with the given id.
    fn load_job(&self, job_id: &Vec<u8>) -> (r: Result<Job, EscrowFailure>)
        ensures
            match r {
                Ok(job) => self@.jobs.contains_key(job_id@) && job@ == self@.jobs[job_id@],
                Err(f) => !self@.jobs.contains_key(job_id@) && f == EscrowFailure::Trap(
                    EscrowTrap::JobNotFound,
                ),
            },
    {
        match self.jobs.get(job_id) {
            Some(job) => Ok(job.clone()),
            None => Err(EscrowFailure::Trap(EscrowTrap::JobNotFound)),
        }
    }

    /// Sets up the admins and how many of them have to approve an administrative call.
    pub fn initialize(&mut self, admins: Vec<Address>, threshold: u32) -> (r: Result<
        (),
        EscrowFailure,
    >)
        ensures
            match transitions::initialize_refusal(old(self)@, admins@, threshold) {
                Some(f) => r == Err::<(), EscrowFailure>(f) && final(self)@ == old(self)@,
                None => r == Ok::<(), EscrowFailure>(()) && final(self)@
                    == transitions::initialized(old(self)@, admins@, threshold),
            },
    {
        if self.admins.is_some() {
            return Err(EscrowFailure::Error(EscrowError::AlreadyInitialized));
        }
        if admins.len() == 0 {
            return Err(EscrowFailure::Error(EscrowError::AdminSetMustNotBeEmpty));
        }
        if threshold == 0 || threshold as usize > admins.len() {
            return Err(
                EscrowFailure::Error(EscrowError::ThresholdMustBeBetweenOneAndAdminCount),
            );
        }
        self.admins = Some(AdminSet { members: admins, threshold });
        Ok(())
    }

    /// Opens a job: `amount` of `token` is to move from the client to the contract. The freelancer
    /// may claim milestones `release_after` ledgers from now; that has to be at least
    /// `RELEASE_AFTER_LEDGERS`.
    pub fn create_job(
        &mut self,
        ctx: &CallContext,
        client: Address,
        freelancer: Address,
        job_id: Vec<u8>,
        token: Address,
        amount: i128,
        milestones: Vec<Milestone>,
        release_after: u32,
    ) -> (r: Result<Receipt<Vec<u8>>, EscrowFailure>)
        ensures
            transitions::follows(
                transitions::create_step(
                    old(self)@,
                    *ctx,
                    client,
                    freelancer,
                    job_id@,
                    token,
                    amount,
                    types::milestones_model(milestones@),
                    release_after,
                ),
                old(self)@,
                final(self)@,
                r,
            ),
    {
        if amount <= 0 {
            return Err(EscrowFailure::Error(EscrowError::AmountMustBePositive));
        }
        if release_after < RELEASE_AFTER_LEDGERS {
            return Err(EscrowFailure::Error(EscrowError::ReleaseAfterBelowMinimum));
        }
        if self.jobs.has(&job_id) {
            return Err(EscrowFailure::Error(EscrowError::JobAlreadyExists));
        }
        if let Err(e) = validate_milestones(&milestones) {
            return Err(EscrowFailure::Error(e));
        }
        if let Err(f) = check_percentages(&milestones) {
            return Err(f);
        }
        let deadline: u32 = match ctx.sequence.checked_add(DEFAULT_DEADLINE_LEDGERS) {
            Some(d) => d,
            None => {
                return Err(EscrowFailure::Trap(EscrowTrap::LedgerSequenceOverflow));
            },
        };
        let release_after_abs: u32 = match ctx.sequence.checked_add(release_after) {
            Some(a) => a,
            None => {
                return Err(EscrowFailure::Trap(EscrowTrap::LedgerSequenceOverflow));
            },
        };
        if release_after_abs > deadline {
            return Err(EscrowFailure::Error(EscrowError::ReleaseAfterExceedsDeadline));
        }
        let reputation = match self.reputation_job_created(&freelancer, ctx.sequence) {
            Ok(r) => r,
            Err(t) => {
                return Err(EscrowFailure::Trap(t));
            },
        };
        let next_count: u32 = match self.job_count.checked_add(1) {
            Some(n) => n,
            None => {
                return Err(EscrowFailure::Trap(EscrowTrap::JobCountOverflow));
            },
        };
        let job = Job {
            id: copy_bytes(&job_id),
            client,
            freelancer,
            token,
            amount,
            status: JobStatus::Escrowed,
            milestones,
            disputed: false,
            release_after: release_after_abs,
            deadline,
        };
        let ghost ids_before = self.job_ids@;
        self.jobs.set(copy_bytes(&job_id), job);
        self.reputations.set(freelancer, reputation);
        self.job_count = next_count;
        self.job_ids.push(copy_bytes(&job_id));
        assert(state::ids_model(self.job_ids@) =~= state::ids_model(ids_before).push(job_id@));
        Ok(
            Receipt {
                reputation: None,
                event: EscrowEvent::JobCreated { client, job_id, freelancer, amount },
                transfer: Some(TokenTransfer { token, from: client, to: ctx.contract, amount }),
            },
        )
    }

    /// Gives a job another list of milestones, agreed between client and freelancer, as long as
    /// nothing of it is released or disputed. The amount stays the same.
    pub fn amend_job_milestones(
        &mut self,
        client: Address,
        freelancer: Address,
        job_id: Vec<u8>,
        new_milestones: Vec<Milestone>,
    ) -> (r: Result<Receipt<Vec<u8>>, EscrowFailure>)
        ensures
            transitions::follows(
                transitions::amend_step(
                    old(self)@,
                    client,
                    freelancer,
                    job_id@,
                    types::milestones_model(new_milestones@),
                ),
                old(self)@,
                final(self)@,
                r,
            ),
    {
        let mut job = match self.load_job(&job_id) {
            Ok(job) => job,
            Err(f) => {
                return Err(f);
            },
        };
        if job.client != client {
            return Err(EscrowFailure::Error(EscrowError::OnlyJobClientCanAmend));
        }
        if job.freelancer != freelancer {
            return Err(EscrowFailure::Error(EscrowError::OnlyJobFreelancerCanAmend));
        }
        if job.status != JobStatus::Escrowed || has_released(&job.milestones) || has_disputed(
            &job.milestones,
        ) {
            return Err(EscrowFailure::Error(EscrowError::AmendmentOnlyBeforeRelease));
        }
        if let Err(e) = validate_milestones(&new_milestones) {
            return Err(EscrowFailure::Error(e));
        }
        if let Err(f) = check_amendment(&new_milestones) {
            return Err(f);
        }
        let amendment_count: u32 = match self.get_job_amendment_count(&job_id).checked_add(1) {
            Some(n) => n,
            None => {
                return Err(EscrowFailure::Trap(EscrowTrap::AmendmentCountOverflow));
            },
        };
        let old_milestone_count: usize = job.milestones.len();
        let new_milestone_count: usize = new_milestones.len();
        job.milestones = new_milestones;
        self.jobs.set(copy_bytes(&job_id), job);
        self.amendments.set(copy_bytes(&job_id), amendment_count);
        Ok(
            announce(
                EscrowEvent::JobAmended {
                    client,
                    job_id,
                    old_milestone_count,
                    new_milestone_count,
                    amendment_count,
                },
            ),
        )
    }

    /// How often the milestones of a job were amended.
    pub fn get_job_amendment_count(&self, job_id: &Vec<u8>) -> (r: u32)
        ensures
            r == transitions::amendment_count(self@, job_id@),
    {
        match self.amendments.get(job_id) {
            Some(n) => *n,
            None => 0,
        }
    }

    /// The client releases a milestone: its share is to be paid to the freelancer.
    pub fn release_milestone(
        &mut self,
        ctx: &CallContext,
        client: Address,
        job_id: Vec<u8>,
        milestone_index: u32,
    ) -> (r: Result<Receipt<Vec<u8>>, EscrowFailure>)
        ensures
            transitions::follows(
                transitions::release_step(old(self)@, *ctx, client, job_id@, milestone_index),
                old(self)@,
                final(self)@,
                r,
            ),
    {
        let mut job = match self.load_job(&job_id) {
            Ok(job) => job,
            Err(f) => {
                return Err(f);
            },
        };
        if job.client != client {
            return Err(EscrowFailure::Error(EscrowError::OnlyClientCanRelease));
        }
        let i: usize = milestone_index as usize;
        if i >= job.milestones.len() {
            return Err(EscrowFailure::Error(EscrowError::InvalidMilestoneIndex));
        }
        let mut milestone = job.milestones[i].clone();
        if milestone.disputed {
            return Err(EscrowFailure::Error(EscrowError::MilestoneIsDisputed));
        }
        if milestone.released {
            return Err(EscrowFailure::Error(EscrowError::MilestoneAlreadyReleased));
        }
        if milestone.oracle.is_some() && !milestone.verified {
            return Err(EscrowFailure::Error(EscrowError::MilestoneNotVerifiedByOracle));
        }
        let amount: i128 = match compute_proportional_payout(
            job.amount,
            milestone.percentage as i128,
            EscrowError::ReleaseAmountCalculationFailed,
        ) {
            Ok(p) => p,
            Err(e) => {
                return Err(EscrowFailure::Error(e));
            },
        };
        milestone.released = true;
        put_milestone(&mut job, i, milestone);
        job.status = status_of(&job.milestones);
        let transfer = TokenTransfer {
            token: job.token,
            from: ctx.contract,
            to: job.freelancer,
            amount,
        };
        match self.settle(copy_bytes(&job_id), job, ctx.sequence) {
            Ok(reputation) => Ok(
                Receipt {
                    reputation,
                    event: EscrowEvent::MilestoneReleased { client, job_id, milestone_index, amount },
                    transfer: Some(transfer),
                },
            ),
            Err(t) => Err(EscrowFailure::Trap(t)),
        }
    }

    /// The freelancer claims a milestone once the release period is over: its share is to be paid
    /// to the freelancer.
    pub fn claim_milestone(
        &mut self,
        ctx: &CallContext,
        freelancer: Address,
        job_id: Vec<u8>,
        milestone_index: u32,
    ) -> (r: Result<Receipt<Vec<u8>>, EscrowFailure>)
        ensures
            transitions::follows(
                transitions::claim_step(old(self)@, *ctx, freelancer, job_id@, milestone_index),
                old(self)@,
                final(self)@,
                r,
            ),
    {
        let mut job = match self.load_job(&job_id) {
            Ok(job) => job,
            Err(f) => {
                return Err(f);
            },
        };
        if job.freelancer != freelancer {
            return Err(EscrowFailure::Error(EscrowError::OnlyJobFreelancerCanClaim));
        }
        if ctx.sequence < job.release_after {
            return Err(EscrowFailure::Error(EscrowError::ReleasePeriodNotReached));
        }
        let i: usize = milestone_index as usize;
        if i >= job.milestones.len() {
            return Err(EscrowFailure::Error(EscrowError::InvalidMilestoneIndex));
        }
        let mut milestone = job.milestones[i].clone();
        if milestone.disputed {
            return Err(
                EscrowFailure::Error(EscrowError::MilestoneDisputedCannotClaimMilestone),
            );
        }
        if milestone.released {
            return Err(EscrowFailure::Error(EscrowError::MilestoneAlreadyReleased));
        }
        let amount: i128 = match compute_proportional_payout(
            job.amount,
            milestone.percentage as i128,
            EscrowError::ClaimAmountCalculationFailed,
        ) {
            Ok(p) => p,
            Err(e) => {
                return Err(EscrowFailure::Error(e));
            },
        };
        milestone.released = true;
        put_milestone(&mut job, i, milestone);
        job.status = status_of(&job.milestones);
        let transfer = TokenTransfer {
            token: job.token,
            from: ctx.contract,
            to: job.freelancer,
            amount,
        };
        match self.settle(copy_bytes(&job_id), job, ctx.sequence) {
            Ok(reputation) => Ok(
                Receipt {
                    reputation,
                    event: EscrowEvent::MilestoneClaimed {
                        freelancer,
                        job_id,
                        milestone_index,
                        amount,
                    },
                    transfer: Some(transfer),
                },
            ),
            Err(t) => Err(EscrowFailure::Trap(t)),
        }
    }

    /// The freelancer hands in the hash of a proof for a milestone, which the oracle then has to
    /// verify anew.
    pub fn submit_milestone_proof(
        &mut self,
        freelancer: Address,
        job_id: Vec<u8>,
        milestone_index: u32,
        proof_hash: [u8; 32],
    ) -> (r: Result<Receipt<Vec<u8>>, EscrowFailure>)
        ensures
            transitions::follows(
                transitions::proof_step(
                    old(self)@,
                    freelancer,
                    job_id@,
                    milestone_index,
                    proof_hash,
                ),
                old(self)@,
                final(self)@,
                r,
            ),
    {
        let mut job = match self.load_job(&job_id) {
            Ok(job) => job,
            Err(f) => {
                return Err(f);
            },
        };
        if job.freelancer != freelancer {
            return Err(EscrowFailure::Error(EscrowError::OnlyAssignedFreelancerCanSubmitProof));
        }
        let i: usize = milestone_index as usize;
        if i >= job.milestones.len() {
            return Err(EscrowFailure::Error(EscrowError::InvalidMilestoneIndex));
        }
        let mut milestone = job.milestones[i].clone();
        if milestone.released {
            return Err(EscrowFailure::Error(EscrowError::MilestoneAlreadyCompleted));
        }
        milestone.proof_hash = Some(proof_hash);
        milestone.verified = false;
        put_milestone(&mut job, i, milestone);
        self.jobs.set(copy_bytes(&job_id), job);
        Ok(announce(EscrowEvent::ProofSubmitted { freelancer, job_id, milestone_index }))
    }

    /// The oracle of a milestone confirms the proof that was handed in.
    pub fn verify_milestone(
        &mut self,
        oracle: Address,
        job_id: Vec<u8>,
        milestone_index: u32,
    ) -> (r: Result<Receipt<Vec<u8>>, EscrowFailure>)
        ensures
            transitions::follows(
                transitions::verify_step(old(self)@, oracle, job_id@, milestone_index),
                old(self)@,
                final(self)@,
                r,
            ),
    {
        let mut job = match self.load_job(&job_id) {
            Ok(job) => job,
            Err(f) => {
                return Err(f);
            },
        };
        let i: usize = milestone_index as usize;
        if i >= job.milestones.len() {
            return Err(EscrowFailure::Error(EscrowError::InvalidMilestoneIndex));
        }
        let mut milestone = job.milestones[i].clone();
        match milestone.oracle {
            None => {
                return Err(EscrowFailure::Error(EscrowError::MilestoneHasNoOracleConfigured));
            },
            Some(configured) => {
                if configured != oracle {
                    return Err(EscrowFailure::Error(EscrowError::OnlyConfiguredOracleCanVerify));
                }
            },
        }
        if milestone.proof_hash.is_none() {
            return Err(EscrowFailure::Error(EscrowError::NoProofSubmittedYet));
        }
        if milestone.released {
            return Err(EscrowFailure::Error(EscrowError::MilestoneAlreadyCompleted));
        }
        milestone.verified = true;
        put_milestone(&mut job, i, milestone);
        self.jobs.set(copy_bytes(&job_id), job);
        Ok(announce(EscrowEvent::MilestoneVerified { oracle, job_id, milestone_index }))
    }

    /// The admins put every unreleased milestone of a job under dispute.
    pub fn dispute_job(&mut self, signers: &Vec<Address>, job_id: Vec<u8>) -> (r: Result<
        Receipt<Vec<u8>>,
        EscrowFailure,
    >)
        ensures
            transitions::follows(
                transitions::dispute_job_step(old(self)@, signers@, job_id@),
                old(self)@,
                final(self)@,
                r,
            ),
    {
        if let Err(f) = self.require_admin(signers) {
            return Err(f);
        }
        let mut job = match self.load_job(&job_id) {
            Ok(job) => job,
            Err(f) => {
                return Err(f);
            },
        };
        let ghost before = job@;
        let mut i: usize = 0;
        while i < job.milestones.len()
            invariant
                i <= job.milestones@.len(),
                job@ == (JobModel { milestones: job@.milestones, ..before }),
                job@.milestones.len() == before.milestones.len(),
                forall|j: int|
                    0 <= j < i ==> #[trigger] job@.milestones[j] == transitions::all_disputed(
                        before.milestones,
                    )[j],
                forall|j: int|
                    i <= j < job@.milestones.len() ==> #[trigger] job@.milestones[j]
                        == before.milestones[j],
            decreases job.milestones@.len() - i,
        {
            assert(job@.milestones[i as int] == before.milestones[i as int]);
            let mut milestone = job.milestones[i].clone();
            if !milestone.released {
                milestone.disputed = true;
                milestone.verified = false;
                milestone.proof_hash = None;
            }
            put_milestone(&mut job, i, milestone);
            i = i + 1;
        }
        assert(job@.milestones =~= transitions::all_disputed(before.milestones));
        job.disputed = true;
        job.status = JobStatus::Disputed;
        match self.reputation_job_disputed(copy_bytes(&job_id), job) {
            Ok(_) => Ok(announce(EscrowEvent::JobDisputed { job_id })),
            Err(t) => Err(EscrowFailure::Trap(t)),
        }
    }

    /// The admins end the dispute over a job: what remains in escrow is to be paid to the
    /// freelancer, or back to the client.
    pub fn resolve_dispute(
        &mut self,
        ctx: &CallContext,
        signers: &Vec<Address>,
        job_id: Vec<u8>,
        approve_remaining: bool,
    ) -> (r: Result<Receipt<Vec<u8>>, EscrowFailure>)
        ensures
            transitions::follows(
                transitions::resolve_step(
                    old(self)@,
                    *ctx,
                    signers@,
                    job_id@,
                    approve_remaining,
                ),
                old(self)@,
                final(self)@,
                r,
            ),
    {
        if let Err(f) = self.require_admin(signers) {
            return Err(f);
        }
        let mut job = match self.load_job(&job_id) {
            Ok(job) => job,
            Err(f) => {
                return Err(f);
            },
        };
        if !job.disputed {
            return Err(EscrowFailure::Error(EscrowError::JobIsNotDisputed));
        }
        let remaining: i128 = match compute_remaining_funds(
            &job,
            EscrowError::ReleaseAmountCalculationFailed,
        ) {
            Ok(sum) => sum,
            Err(e) => {
                return Err(EscrowFailure::Error(e));
            },
        };
        close_job(&mut job);
        let recipient = if approve_remaining {
            job.freelancer
        } else {
            job.client
        };
        let transfer = pay(ctx, &job, recipient, remaining);
        match self.settle(copy_bytes(&job_id), job, ctx.sequence) {
            Ok(reputation) => Ok(
                Receipt {
                    reputation,
                    event: EscrowEvent::JobResolved { job_id, approve_remaining },
                    transfer,
                },
            ),
            Err(t) => Err(EscrowFailure::Trap(t)),
        }
    }

    /// The admins put a single milestone under dispute.
    pub fn dispute_milestone(
        &mut self,
        signers: &Vec<Address>,
        job_id: Vec<u8>,
        milestone_index: u32,
    ) -> (r: Result<Receipt<Vec<u8>>, EscrowFailure>)
        ensures
            transitions::follows(
                transitions::dispute_milestone_step(
                    old(self)@,
                    signers@,
                    job_id@,
                    milestone_index,
                ),
                old(self)@,
                final(self)@,
                r,
            ),
    {
        if let Err(f) = self.require_admin(signers) {
            return Err(f);
        }
        let mut job = match self.load_job(&job_id) {
            Ok(job) => job,
            Err(f) => {
                return Err(f);
            },
        };
        let i: usize = milestone_index as usize;
        if i >= job.milestones.len() {
            return Err(EscrowFailure::Error(EscrowError::InvalidMilestoneIndex));
        }
        let mut milestone = job.milestones[i].clone();
        if milestone.released {
            return Err(EscrowFailure::Error(EscrowError::MilestoneAlreadyReleased));
        }
        if milestone.disputed {
            return Err(EscrowFailure::Error(EscrowError::MilestoneAlreadyDisputed));
        }
        milestone.disputed = true;
        milestone.verified = false;
        milestone.proof_hash = None;
        put_milestone(&mut job, i, milestone);
        job.disputed = true;
        job.status = JobStatus::Disputed;
        match self.reputation_job_disputed(copy_bytes(&job_id), job) {
            Ok(_) => Ok(announce(EscrowEvent::MilestoneDisputed { job_id, milestone_index })),
            Err(t) => Err(EscrowFailure::Trap(t)),
        }
    }

    /// The admins end the dispute over a milestone: its share is to be paid to the freelancer, or
    /// back to the client.
    pub fn resolve_milestone_dispute(
        &mut self,
        ctx: &CallContext,
        signers: &Vec<Address>,
        job_id: Vec<u8>,
        milestone_index: u32,
        approve: bool,
    ) -> (r: Result<Receipt<Vec<u8>>, EscrowFailure>)
        ensures
            transitions::follows(
                transitions::resolve_milestone_step(
                    old(self)@,
                    *ctx,
                    signers@,
                    job_id@,
                    milestone_index,
                    approve,
                ),
                old(self)@,
                final(self)@,
                r,
            ),
    {
        if let Err(f) = self.require_admin(signers) {
            return Err(f);
        }
        let mut job = match self.load_job(&job_id) {
            Ok(job) => job,
            Err(f) => {
                return Err(f);
            },
        };
        let i: usize = milestone_index as usize;
        if i >= job.milestones.len() {
            return Err(EscrowFailure::Error(EscrowError::InvalidMilestoneIndex));
        }
        let mut milestone = job.milestones[i].clone();
        if !milestone.disputed {
            return Err(EscrowFailure::Error(EscrowError::MilestoneIsNotDisputed));
        }
        let amount: i128 = match compute_proportional_payout(
            job.amount,
            milestone.percentage as i128,
            EscrowError::ReleaseAmountCalculationFailed,
        ) {
            Ok(p) => p,
            Err(e) => {
                return Err(EscrowFailure::Error(e));
            },
        };
        milestone.disputed = false;
        milestone.released = true;
        put_milestone(&mut job, i, milestone);
        job.disputed = has_disputed(&job.milestones);
        job.status = status_of(&job.milestones);
        let recipient = if approve {
            job.freelancer
        } else {
            job.client
        };
        let transfer = pay(ctx, &job, recipient, amount);
        match self.settle(copy_bytes(&job_id), job, ctx.sequence) {
            Ok(reputation) => Ok(
                Receipt {
                    reputation,
                    event: EscrowEvent::MilestoneResolved { job_id, milestone_index, approve },
                    transfer,
                },
            ),
            Err(t) => Err(EscrowFailure::Trap(t)),
        }
    }

    /// The client takes the whole amount of a job back after its deadline, if no milestone was
    /// released. Nothing of the job is paid afterwards.
    pub fn refund_expired_job(
        &mut self,
        ctx: &CallContext,
        client: Address,
        job_id: Vec<u8>,
    ) -> (r: Result<Receipt<Vec<u8>>, EscrowFailure>)
        ensures
            transitions::follows(
                transitions::refund_step(old(self)@, *ctx, client, job_id@),
                old(self)@,
                final(self)@,
                r,
            ),
    {
        let mut job = match self.load_job(&job_id) {
            Ok(job) => job,
            Err(f) => {
                return Err(f);
            },
        };
        if job.client != client {
            return Err(EscrowFailure::Error(EscrowError::OnlyClientCanRequestRefund));
        }
        if ctx.sequence < job.deadline {
            return Err(EscrowFailure::Error(EscrowError::JobDeadlineHasNotPassed));
        }
        if has_released(&job.milestones) {
            return Err(EscrowFailure::Error(EscrowError::CannotRefundMilestonesClaimed));
        }
        if let Err(e) = compute_remaining_funds(&job, EscrowError::RefundAmountCalculationFailed) {
            return Err(EscrowFailure::Error(e));
        }
        let amount: i128 = job.amount;
        close_job(&mut job);
        let transfer = pay(ctx, &job, client, amount);
        self.completions.set(copy_bytes(&job.id), false);
        self.jobs.set(copy_bytes(&job_id), job);
        Ok(
            Receipt {
                reputation: None,
                event: EscrowEvent::JobRefunded { client, job_id, amount },
                transfer,
            },
        )
    }

    /// The admins put off the ledger from which on the freelancer may claim milestones.
    pub fn update_release_after(
        &mut self,
        signers: &Vec<Address>,
        job_id: Vec<u8>,
        new_release_after: u32,
    ) -> (r: Result<Receipt<Vec<u8>>, EscrowFailure>)
        ensures
            transitions::follows(
                transitions::release_after_step(
                    old(self)@,
                    signers@,
                    job_id@,
                    new_release_after,
                ),
                old(self)@,
                final(self)@,
                r,
            ),
    {
        if let Err(f) = self.require_admin(signers) {
            return Err(f);
        }
        let mut job = match self.load_job(&job_id) {
            Ok(job) => job,
            Err(f) => {
                return Err(f);
            },
        };
        if new_release_after <= job.release_after {
            return Err(EscrowFailure::Error(EscrowError::NewReleaseAfterMustExtendCurrent));
        }
        job.release_after = new_release_after;
        self.jobs.set(copy_bytes(&job_id), job);
        Ok(
            announce(
                EscrowEvent::ReleaseAfterUpdated { job_id, release_after: new_release_after },
            ),
        )
    }

    /// The admins take another address among them.
    pub fn add_admin(&mut self, signers: &Vec<Address>, new_admin: Address) -> (r: Result<
        Receipt<Vec<u8>>,
        EscrowFailure,
    >)
        ensures
            transitions::follows(
                transitions::add_admin_step(old(self)@, signers@, new_admin),
                old(self)@,
                final(self)@,
                r,
            ),
    {
        if let Err(f) = self.require_admin(signers) {
            return Err(f);
        }
        let mut members = match self.get_admin_set() {
            Ok(members) => members,
            Err(f) => {
                return Err(f);
            },
        };
        if contains_address(&members, new_admin) {
            return Err(EscrowFailure::Error(EscrowError::AddressAlreadyAdmin));
        }
        members.push(new_admin);
        self.set_members(members);
        Ok(announce(EscrowEvent::AdminAdded { admin: new_admin }))
    }

    /// The admins remove an address from among them, as long as enough of them are left.
    pub fn remove_admin(&mut self, signers: &Vec<Address>, admin_to_remove: Address) -> (r: Result<
        Receipt<Vec<u8>>,
        EscrowFailure,
    >)
        ensures
            transitions::follows(
                transitions::remove_admin_step(old(self)@, signers@, admin_to_remove),
                old(self)@,
                final(self)@,
                r,
            ),
    {
        if let Err(f) = self.require_admin(signers) {
            return Err(f);
        }
        let members = match self.get_admin_set() {
            Ok(members) => members,
            Err(f) => {
                return Err(f);
            },
        };
        let threshold: u32 = match self.get_admin_threshold() {
            Ok(threshold) => threshold,
            Err(f) => {
                return Err(f);
            },
        };
        if !contains_address(&members, admin_to_remove) {
            return Err(EscrowFailure::Error(EscrowError::AddressNotAdmin));
        }
        if members.len() <= 1 {
            return Err(EscrowFailure::Error(EscrowError::CannotRemoveLastAdmin));
        }
        let rest = remove_address(&members, admin_to_remove);
        if threshold as usize > rest.len() {
            return Err(EscrowFailure::Error(EscrowError::ThresholdExceedsAdminCount));
        }
        self.set_members(rest);
        Ok(announce(EscrowEvent::AdminRemoved { admin: admin_to_remove }))
    }

    /// The admins change how many of them have to approve.
    pub fn update_threshold(&mut self, signers: &Vec<Address>, new_threshold: u32) -> (r: Result<
        Receipt<Vec<u8>>,
        EscrowFailure,
    >)
        ensures
            transitions::follows(
                transitions::threshold_step(old(self)@, signers@, new_threshold),
                old(self)@,
                final(self)@,
                r,
            ),
    {
        if let Err(f) = self.require_admin(signers) {
            return Err(f);
        }
        let members = match self.get_admin_set() {
            Ok(members) => members,
            Err(f) => {
                return Err(f);
            },
        };
        if new_threshold == 0 || new_threshold as usize > members.len() {
            return Err(
                EscrowFailure::Error(EscrowError::ThresholdMustBeBetweenOneAndAdminCount),
            );
        }
        self.admins = Some(AdminSet { members, threshold: new_threshold });
        Ok(announce(EscrowEvent::ThresholdUpdated { threshold: new_threshold }))
    }

    /// Replaces the list of admins.
    fn set_members(&mut self, members: Vec<Address>)
        requires
            old(self).admins is Some,
        ensures
            final(self)@ == transitions::with_members(old(self)@, members@),
    {
        let threshold: u32 = match &self.admins {
            Some(admins) => admins.threshold,
            None => 0,
        };
        self.admins = Some(AdminSet { members, threshold });
    }

    /// The admins.
    pub fn get_admin_set(&self) -> (r: Result<Vec<Address>, EscrowFailure>)
        ensures
            match self@.admins {
                Some(admins) => r matches Ok(members) && members@ == admins.members,
                None => r == Err::<Vec<Address>, EscrowFailure>(
                    EscrowFailure::Trap(EscrowTrap::NotInitialized),
                ),
            },
    {
        match &self.admins {
            Some(admins) => Ok(copy_addresses(&admins.members)),
            None => Err(EscrowFailure::Trap(EscrowTrap::NotInitialized)),
        }
    }

    /// How many admins have to approve.
    pub fn get_admin_threshold(&self) -> (r: Result<u32, EscrowFailure>)
        ensures
            match self@.admins {
                Some(admins) => r == Ok::<u32, EscrowFailure>(admins.threshold),
                None => r == Err::<u32, EscrowFailure>(
                    EscrowFailure::Trap(EscrowTrap::NotInitialized),
                ),
            },
    {
        match &self.admins {
            Some(admins) => Ok(admins.threshold),
            None => Err(EscrowFailure::Trap(EscrowTrap::NotInitialized)),
        }
    }

    /// The job with the given id.
    pub fn get_job(&self, job_id: &Vec<u8>) -> (r: Option<Job>)
        ensures
            match r {
                Some(job) => self@.jobs.contains_key(job_id@) && job@ == self@.jobs[job_id@],
                None => !self@.jobs.contains_key(job_id@),
            },
    {
        match self.jobs.get(job_id) {
            Some(job) => Some(job.clone()),
            None => None,
        }
    }

    /// The number of jobs created.
    pub fn get_job_count(&self) -> (r: u32)
        ensures
            r == self@.job_count,
    {
        self.job_count
    }

    /// The ids of the jobs created, in order of creation.
    pub fn get_job_ids(&self) -> (r: Vec<Vec<u8>>)
        ensures
            state::ids_model(r@) == self@.job_ids,
    {
        copy_ids(&self.job_ids)
    }

    /// The record of a freelancer.
    pub fn get_freelancer_reputation(&self, freelancer: &Address) -> (r: FreelancerReputation)
        ensures
            r == transitions::reputation_of(self@, *freelancer),
    {
        self.read_reputation(freelancer)
    }
}

} // verus!
