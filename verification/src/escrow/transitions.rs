//! What each call does to the state of the escrow contract, and when it is refused.

use vstd::prelude::*;

use crate::address::Address;
use crate::arithmetic;
use crate::context::{CallContext, TokenTransfer};
use crate::escrow::admin;
use crate::escrow::error::{EscrowError, EscrowFailure, EscrowTrap};
use crate::escrow::events::{EscrowEvent, Receipt, ReputationUpdate};
use crate::escrow::milestones;
use crate::escrow::state::{AdminModel, EscrowModel};
use crate::escrow::types::{
    FreelancerReputation, JobModel, JobStatus, MilestoneModel, DEFAULT_DEADLINE_LEDGERS,
    RELEASE_AFTER_LEDGERS,
};

verus! {

/// The outcome of a call: the next state and what is announced and asked for, or why it is refused.
pub type Step = Result<(EscrowModel, Receipt<Seq<u8>>), EscrowFailure>;

/// A call on a contract in state `before` returned `r` and left the state `after`, as `step` says.
/// A refused call leaves the state as it was.
pub open spec fn follows(
    step: Step,
    before: EscrowModel,
    after: EscrowModel,
    r: Result<Receipt<Vec<u8>>, EscrowFailure>,
) -> bool {
    match step {
        Ok((next, receipt)) => r matches Ok(given) && given@ == receipt && after == next,
        Err(failure) => r == Err::<Receipt<Vec<u8>>, EscrowFailure>(failure) && after == before,
    }
}

/// A receipt that holds an event and nothing else.
pub open spec fn announcement(event: EscrowEvent<Seq<u8>>) -> Receipt<Seq<u8>> {
    Receipt { reputation: None, event, transfer: None }
}

/// A payment out of a job's escrow. Nothing is moved where nothing is due.
pub open spec fn payment(
    ctx: CallContext,
    job: JobModel,
    to: Address,
    amount: int,
) -> Option<TokenTransfer> {
    if amount > 0 {
        Some(TokenTransfer { token: job.token, from: ctx.contract, to, amount: amount as i128 })
    } else {
        None
    }
}

// Approval.

/// Why a call that needs the admins' approval is refused.
pub open spec fn admin_refusal(s: EscrowModel, signers: Seq<Address>) -> Option<EscrowFailure> {
    match s.admins {
        None => Some(EscrowFailure::Trap(EscrowTrap::NotInitialized)),
        Some(a) => if admin::distinct_admins(a.members, signers) < a.threshold {
            Some(EscrowFailure::Error(EscrowError::InsufficientAdminSignatures))
        } else {
            None
        },
    }
}

// Reputation.

/// The record of a freelancer without a history.
pub open spec fn blank_reputation() -> FreelancerReputation {
    FreelancerReputation {
        total_jobs: 0,
        completed_jobs: 0,
        disputed_jobs: 0,
        total_value_completed: 0,
        on_time_completions: 0,
        created_at: 0,
    }
}

/// The record of a freelancer.
pub open spec fn reputation_of(s: EscrowModel, freelancer: Address) -> FreelancerReputation {
    if s.reputations.contains_key(freelancer) {
        s.reputations[freelancer]
    } else {
        blank_reputation()
    }
}

/// The record of a freelancer who has been given one more job.
pub open spec fn reputation_created(
    s: EscrowModel,
    freelancer: Address,
    sequence: u32,
) -> Result<FreelancerReputation, EscrowTrap> {
    let r = reputation_of(s, freelancer);
    if r.total_jobs == u32::MAX {
        Err(EscrowTrap::TotalJobsOverflow)
    } else {
        Ok(
            FreelancerReputation {
                total_jobs: (r.total_jobs + 1) as u32,
                created_at: if s.reputations.contains_key(freelancer) {
                    r.created_at
                } else {
                    sequence
                },
                ..r
            },
        )
    }
}

/// The record of a freelancer with one more disputed job.
pub open spec fn reputation_disputed(r: FreelancerReputation) -> Result<
    FreelancerReputation,
    EscrowTrap,
> {
    if r.disputed_jobs == u32::MAX {
        Err(EscrowTrap::DisputedJobsOverflow)
    } else {
        Ok(FreelancerReputation { disputed_jobs: (r.disputed_jobs + 1) as u32, ..r })
    }
}

/// The record of a freelancer with one more completed job, over `amount` and due at `deadline`.
pub open spec fn reputation_completed(
    r: FreelancerReputation,
    amount: i128,
    deadline: u32,
    sequence: u32,
) -> Result<FreelancerReputation, EscrowTrap> {
    if r.completed_jobs == u32::MAX {
        Err(EscrowTrap::CompletedJobsOverflow)
    } else if !arithmetic::fits_i128(r.total_value_completed + amount) {
        Err(EscrowTrap::TotalValueCompletedOverflow)
    } else if sequence <= deadline && r.on_time_completions == u32::MAX {
        Err(EscrowTrap::OnTimeCompletionsOverflow)
    } else {
        Ok(
            FreelancerReputation {
                completed_jobs: (r.completed_jobs + 1) as u32,
                total_value_completed: (r.total_value_completed + amount) as i128,
                on_time_completions: if sequence <= deadline {
                    (r.on_time_completions + 1) as u32
                } else {
                    r.on_time_completions
                },
                ..r
            },
        )
    }
}

/// What is published of a changed record.
pub open spec fn update_of(freelancer: Address, r: FreelancerReputation) -> ReputationUpdate {
    ReputationUpdate {
        freelancer,
        completed_jobs: r.completed_jobs,
        disputed_jobs: r.disputed_jobs,
        total_value_completed: r.total_value_completed,
    }
}

/// The state with a job stored.
pub open spec fn with_job(s: EscrowModel, job_id: Seq<u8>, job: JobModel) -> EscrowModel {
    EscrowModel { jobs: s.jobs.insert(job_id, job), ..s }
}

/// Whether storing `job` brings it to an end for the first time.
pub open spec fn newly_completed(s: EscrowModel, job: JobModel) -> bool {
    job.status == JobStatus::Completed && !s.completions.contains_key(job.id)
}

/// The state with a paid job stored. A job that is newly completed goes to the freelancer's record.
pub open spec fn settle(s: EscrowModel, job_id: Seq<u8>, job: JobModel, sequence: u32) -> Result<
    (EscrowModel, Option<ReputationUpdate>),
    EscrowTrap,
> {
    let stored = with_job(s, job_id, job);
    if newly_completed(s, job) {
        match reputation_completed(
            reputation_of(s, job.freelancer),
            job.amount,
            job.deadline,
            sequence,
        ) {
            Ok(r) => Ok(
                (
                    EscrowModel {
                        reputations: s.reputations.insert(job.freelancer, r),
                        completions: s.completions.insert(job.id, true),
                        ..stored
                    },
                    Some(update_of(job.freelancer, r)),
                ),
            ),
            Err(t) => Err(t),
        }
    } else {
        Ok((stored, None))
    }
}

/// The state with a disputed job stored. The first dispute of a job goes to the freelancer's record.
pub open spec fn freeze(s: EscrowModel, job_id: Seq<u8>, job: JobModel) -> Result<
    EscrowModel,
    EscrowTrap,
> {
    let stored = with_job(s, job_id, job);
    if s.disputes_counted.contains_key(job.id) {
        Ok(stored)
    } else {
        match reputation_disputed(reputation_of(s, job.freelancer)) {
            Ok(r) => Ok(
                EscrowModel {
                    reputations: s.reputations.insert(job.freelancer, r),
                    disputes_counted: s.disputes_counted.insert(job.id, true),
                    ..stored
                },
            ),
            Err(t) => Err(t),
        }
    }
}

// Initialization.

/// Why `initialize` is refused.
pub open spec fn initialize_refusal(
    s: EscrowModel,
    admins: Seq<Address>,
    threshold: u32,
) -> Option<EscrowFailure> {
    if s.admins is Some {
        Some(EscrowFailure::Error(EscrowError::AlreadyInitialized))
    } else if admins.len() == 0 {
        Some(EscrowFailure::Error(EscrowError::AdminSetMustNotBeEmpty))
    } else if threshold == 0 || threshold > admins.len() {
        Some(EscrowFailure::Error(EscrowError::ThresholdMustBeBetweenOneAndAdminCount))
    } else {
        None
    }
}

/// The state after `initialize`.
pub open spec fn initialized(
    s: EscrowModel,
    admins: Seq<Address>,
    threshold: u32,
) -> EscrowModel {
    EscrowModel { admins: Some(AdminModel { members: admins, threshold }), ..s }
}

// Creation.

/// Why `create_job` is refused.
pub open spec fn create_refusal(
    s: EscrowModel,
    ctx: CallContext,
    freelancer: Address,
    job_id: Seq<u8>,
    amount: i128,
    ms: Seq<MilestoneModel>,
    release_after: u32,
) -> Option<EscrowFailure> {
    if amount <= 0 {
        Some(EscrowFailure::Error(EscrowError::AmountMustBePositive))
    } else if release_after < RELEASE_AFTER_LEDGERS {
        Some(EscrowFailure::Error(EscrowError::ReleaseAfterBelowMinimum))
    } else if s.jobs.contains_key(job_id) {
        Some(EscrowFailure::Error(EscrowError::JobAlreadyExists))
    } else if let Some(e) = milestones::list_fault(ms) {
        Some(EscrowFailure::Error(e))
    } else if let Some(f) = milestones::percentage_refusal(ms) {
        Some(f)
    } else if ctx.sequence + DEFAULT_DEADLINE_LEDGERS > u32::MAX {
        Some(EscrowFailure::Trap(EscrowTrap::LedgerSequenceOverflow))
    } else if ctx.sequence + release_after > u32::MAX {
        Some(EscrowFailure::Trap(EscrowTrap::LedgerSequenceOverflow))
    } else if release_after > DEFAULT_DEADLINE_LEDGERS {
        Some(EscrowFailure::Error(EscrowError::ReleaseAfterExceedsDeadline))
    } else if let Err(t) = reputation_created(s, freelancer, ctx.sequence) {
        Some(EscrowFailure::Trap(t))
    } else if s.job_count == u32::MAX {
        Some(EscrowFailure::Trap(EscrowTrap::JobCountOverflow))
    } else {
        None
    }
}

/// The job that `create_job` stores.
pub open spec fn new_job(
    ctx: CallContext,
    client: Address,
    freelancer: Address,
    job_id: Seq<u8>,
    token: Address,
    amount: i128,
    ms: Seq<MilestoneModel>,
    release_after: u32,
) -> JobModel {
    JobModel {
        id: job_id,
        client,
        freelancer,
        token,
        amount,
        status: JobStatus::Escrowed,
        milestones: ms,
        disputed: false,
        release_after: (ctx.sequence + release_after) as u32,
        deadline: (ctx.sequence + DEFAULT_DEADLINE_LEDGERS) as u32,
    }
}

/// The outcome of `create_job`: the job is stored and listed, the freelancer's record counts it,
/// and its amount is to move from the client to the contract.
pub open spec fn create_step(
    s: EscrowModel,
    ctx: CallContext,
    client: Address,
    freelancer: Address,
    job_id: Seq<u8>,
    token: Address,
    amount: i128,
    ms: Seq<MilestoneModel>,
    release_after: u32,
) -> Step {
    match create_refusal(s, ctx, freelancer, job_id, amount, ms, release_after) {
        Some(f) => Err(f),
        None => {
            let job = new_job(ctx, client, freelancer, job_id, token, amount, ms, release_after);
            let record = reputation_created(s, freelancer, ctx.sequence)->Ok_0;
            Ok(
                (
                    EscrowModel {
                        jobs: s.jobs.insert(job_id, job),
                        job_count: (s.job_count + 1) as u32,
                        job_ids: s.job_ids.push(job_id),
                        reputations: s.reputations.insert(freelancer, record),
                        ..s
                    },
                    Receipt {
                        reputation: None,
                        event: EscrowEvent::JobCreated { client, job_id, freelancer, amount },
                        transfer: Some(
                            TokenTransfer { token, from: client, to: ctx.contract, amount },
                        ),
                    },
                ),
            )
        },
    }
}

// Amendment.

/// How often a job was amended.
pub open spec fn amendment_count(s: EscrowModel, job_id: Seq<u8>) -> u32 {
    if s.amendments.contains_key(job_id) {
        s.amendments[job_id]
    } else {
        0
    }
}

/// Why `amend_job_milestones` is refused.
pub open spec fn amend_refusal(
    s: EscrowModel,
    client: Address,
    freelancer: Address,
    job_id: Seq<u8>,
    ms: Seq<MilestoneModel>,
) -> Option<EscrowFailure> {
    if !s.jobs.contains_key(job_id) {
        Some(EscrowFailure::Trap(EscrowTrap::JobNotFound))
    } else if s.jobs[job_id].client != client {
        Some(EscrowFailure::Error(EscrowError::OnlyJobClientCanAmend))
    } else if s.jobs[job_id].freelancer != freelancer {
        Some(EscrowFailure::Error(EscrowError::OnlyJobFreelancerCanAmend))
    } else if s.jobs[job_id].status != JobStatus::Escrowed || milestones::any_released(
        s.jobs[job_id].milestones,
    ) || milestones::any_disputed(s.jobs[job_id].milestones) {
        Some(EscrowFailure::Error(EscrowError::AmendmentOnlyBeforeRelease))
    } else if let Some(e) = milestones::list_fault(ms) {
        Some(EscrowFailure::Error(e))
    } else if let Some(f) = milestones::amendment_refusal(ms) {
        Some(f)
    } else if amendment_count(s, job_id) == u32::MAX {
        Some(EscrowFailure::Trap(EscrowTrap::AmendmentCountOverflow))
    } else {
        None
    }
}

/// The outcome of `amend_job_milestones`: the job has the new milestones and one amendment more.
pub open spec fn amend_step(
    s: EscrowModel,
    client: Address,
    freelancer: Address,
    job_id: Seq<u8>,
    ms: Seq<MilestoneModel>,
) -> Step {
    match amend_refusal(s, client, freelancer, job_id, ms) {
        Some(f) => Err(f),
        None => {
            let job = s.jobs[job_id];
            let count = (amendment_count(s, job_id) + 1) as u32;
            Ok(
                (
                    EscrowModel {
                        jobs: s.jobs.insert(job_id, JobModel { milestones: ms, ..job }),
                        amendments: s.amendments.insert(job_id, count),
                        ..s
                    },
                    announcement(
                        EscrowEvent::JobAmended {
                            client,
                            job_id,
                            old_milestone_count: job.milestones.len() as usize,
                            new_milestone_count: ms.len() as usize,
                            amendment_count: count,
                        },
                    ),
                ),
            )
        },
    }
}

// Payment of single milestones.

/// The job with milestone `i` paid out.
pub open spec fn with_released(job: JobModel, i: int) -> JobModel {
    let ms = job.milestones.update(i, MilestoneModel { released: true, ..job.milestones[i] });
    JobModel { milestones: ms, status: milestones::status_by_milestones(ms), ..job }
}

/// Why `release_milestone` is refused, the freelancer's record aside.
pub open spec fn release_refusal(
    s: EscrowModel,
    client: Address,
    job_id: Seq<u8>,
    i: u32,
) -> Option<EscrowFailure> {
    if !s.jobs.contains_key(job_id) {
        Some(EscrowFailure::Trap(EscrowTrap::JobNotFound))
    } else {
        let job = s.jobs[job_id];
        let m = job.milestones[i as int];
        if job.client != client {
            Some(EscrowFailure::Error(EscrowError::OnlyClientCanRelease))
        } else if i >= job.milestones.len() {
            Some(EscrowFailure::Error(EscrowError::InvalidMilestoneIndex))
        } else if m.disputed {
            Some(EscrowFailure::Error(EscrowError::MilestoneIsDisputed))
        } else if m.released {
            Some(EscrowFailure::Error(EscrowError::MilestoneAlreadyReleased))
        } else if m.oracle is Some && !m.verified {
            Some(EscrowFailure::Error(EscrowError::MilestoneNotVerifiedByOracle))
        } else if milestones::payout(job.amount as int, m.percentage as int) is None {
            Some(EscrowFailure::Error(EscrowError::ReleaseAmountCalculationFailed))
        } else {
            None
        }
    }
}

/// A payment of a milestone to the freelancer.
pub open spec fn share_payment(ctx: CallContext, job: JobModel, amount: int) -> Option<
    TokenTransfer,
> {
    Some(
        TokenTransfer {
            token: job.token,
            from: ctx.contract,
            to: job.freelancer,
            amount: amount as i128,
        },
    )
}

/// The outcome of `release_milestone`: the milestone is released and its share is to be paid to
/// the freelancer.
pub open spec fn release_step(
    s: EscrowModel,
    ctx: CallContext,
    client: Address,
    job_id: Seq<u8>,
    i: u32,
) -> Step {
    match release_refusal(s, client, job_id, i) {
        Some(f) => Err(f),
        None => {
            let job = s.jobs[job_id];
            let share = milestones::payout(
                job.amount as int,
                job.milestones[i as int].percentage as int,
            )->0;
            match settle(s, job_id, with_released(job, i as int), ctx.sequence) {
                Err(t) => Err(EscrowFailure::Trap(t)),
                Ok((next, reputation)) => Ok(
                    (
                        next,
                        Receipt {
                            reputation,
                            event: EscrowEvent::MilestoneReleased {
                                client,
                                job_id,
                                milestone_index: i,
                                amount: share as i128,
                            },
                            transfer: share_payment(ctx, job, share),
                        },
                    ),
                ),
            }
        },
    }
}

/// Why `claim_milestone` is refused, the freelancer's record aside.
pub open spec fn claim_refusal(
    s: EscrowModel,
    ctx: CallContext,
    freelancer: Address,
    job_id: Seq<u8>,
    i: u32,
) -> Option<EscrowFailure> {
    if !s.jobs.contains_key(job_id) {
        Some(EscrowFailure::Trap(EscrowTrap::JobNotFound))
    } else {
        let job = s.jobs[job_id];
        let m = job.milestones[i as int];
        if job.freelancer != freelancer {
            Some(EscrowFailure::Error(EscrowError::OnlyJobFreelancerCanClaim))
        } else if ctx.sequence < job.release_after {
            Some(EscrowFailure::Error(EscrowError::ReleasePeriodNotReached))
        } else if i >= job.milestones.len() {
            Some(EscrowFailure::Error(EscrowError::InvalidMilestoneIndex))
        } else if m.disputed {
            Some(EscrowFailure::Error(EscrowError::MilestoneDisputedCannotClaimMilestone))
        } else if m.released {
            Some(EscrowFailure::Error(EscrowError::MilestoneAlreadyReleased))
        } else if milestones::payout(job.amount as int, m.percentage as int) is None {
            Some(EscrowFailure::Error(EscrowError::ClaimAmountCalculationFailed))
        } else {
            None
        }
    }
}

/// The outcome of `claim_milestone`: the milestone is released and its share is to be paid to the
/// freelancer.
pub open spec fn claim_step(
    s: EscrowModel,
    ctx: CallContext,
    freelancer: Address,
    job_id: Seq<u8>,
    i: u32,
) -> Step {
    match claim_refusal(s, ctx, freelancer, job_id, i) {
        Some(f) => Err(f),
        None => {
            let job = s.jobs[job_id];
            let share = milestones::payout(
                job.amount as int,
                job.milestones[i as int].percentage as int,
            )->0;
            match settle(s, job_id, with_released(job, i as int), ctx.sequence) {
                Err(t) => Err(EscrowFailure::Trap(t)),
                Ok((next, reputation)) => Ok(
                    (
                        next,
                        Receipt {
                            reputation,
                            event: EscrowEvent::MilestoneClaimed {
                                freelancer,
                                job_id,
                                milestone_index: i,
                                amount: share as i128,
                            },
                            transfer: share_payment(ctx, job, share),
                        },
                    ),
                ),
            }
        },
    }
}

// Proofs and their verification.

/// Why `submit_milestone_proof` is refused.
pub open spec fn proof_refusal(
    s: EscrowModel,
    freelancer: Address,
    job_id: Seq<u8>,
    i: u32,
) -> Option<EscrowFailure> {
    if !s.jobs.contains_key(job_id) {
        Some(EscrowFailure::Trap(EscrowTrap::JobNotFound))
    } else {
        let job = s.jobs[job_id];
        if job.freelancer != freelancer {
            Some(EscrowFailure::Error(EscrowError::OnlyAssignedFreelancerCanSubmitProof))
        } else if i >= job.milestones.len() {
            Some(EscrowFailure::Error(EscrowError::InvalidMilestoneIndex))
        } else if job.milestones[i as int].released {
            Some(EscrowFailure::Error(EscrowError::MilestoneAlreadyCompleted))
        } else {
            None
        }
    }
}

/// The outcome of `submit_milestone_proof`: the milestone has the proof and is unverified.
pub open spec fn proof_step(
    s: EscrowModel,
    freelancer: Address,
    job_id: Seq<u8>,
    i: u32,
    proof_hash: [u8; 32],
) -> Step {
    match proof_refusal(s, freelancer, job_id, i) {
        Some(f) => Err(f),
        None => {
            let job = s.jobs[job_id];
            let m = MilestoneModel {
                proof_hash: Some(proof_hash),
                verified: false,
                ..job.milestones[i as int]
            };
            Ok(
                (
                    with_job(
                        s,
                        job_id,
                        JobModel { milestones: job.milestones.update(i as int, m), ..job },
                    ),
                    announcement(
                        EscrowEvent::ProofSubmitted { freelancer, job_id, milestone_index: i },
                    ),
                ),
            )
        },
    }
}

/// Why `verify_milestone` is refused.
pub open spec fn verify_refusal(
    s: EscrowModel,
    oracle: Address,
    job_id: Seq<u8>,
    i: u32,
) -> Option<EscrowFailure> {
    if !s.jobs.contains_key(job_id) {
        Some(EscrowFailure::Trap(EscrowTrap::JobNotFound))
    } else {
        let job = s.jobs[job_id];
        let m = job.milestones[i as int];
        if i >= job.milestones.len() {
            Some(EscrowFailure::Error(EscrowError::InvalidMilestoneIndex))
        } else if m.oracle is None {
            Some(EscrowFailure::Error(EscrowError::MilestoneHasNoOracleConfigured))
        } else if m.oracle != Some(oracle) {
            Some(EscrowFailure::Error(EscrowError::OnlyConfiguredOracleCanVerify))
        } else if m.proof_hash is None {
            Some(EscrowFailure::Error(EscrowError::NoProofSubmittedYet))
        } else if m.released {
            Some(EscrowFailure::Error(EscrowError::MilestoneAlreadyCompleted))
        } else {
            None
        }
    }
}

/// The outcome of `verify_milestone`: the milestone is verified.
pub open spec fn verify_step(s: EscrowModel, oracle: Address, job_id: Seq<u8>, i: u32) -> Step {
    match verify_refusal(s, oracle, job_id, i) {
        Some(f) => Err(f),
        None => {
            let job = s.jobs[job_id];
            let m = MilestoneModel { verified: true, ..job.milestones[i as int] };
            Ok(
                (
                    with_job(
                        s,
                        job_id,
                        JobModel { milestones: job.milestones.update(i as int, m), ..job },
                    ),
                    announcement(
                        EscrowEvent::MilestoneVerified { oracle, job_id, milestone_index: i },
                    ),
                ),
            )
        },
    }
}

// Disputes.

/// A milestone under dispute: what was proved of it no longer counts.
pub open spec fn disputed(m: MilestoneModel) -> MilestoneModel {
    MilestoneModel { disputed: true, verified: false, proof_hash: None, ..m }
}

/// The milestones with every unreleased one under dispute.
pub open spec fn all_disputed(ms: Seq<MilestoneModel>) -> Seq<MilestoneModel> {
    Seq::new(
        ms.len(),
        |i: int|
            if ms[i].released {
                ms[i]
            } else {
                disputed(ms[i])
            },
    )
}

/// A job under dispute with the given milestones.
pub open spec fn under_dispute(job: JobModel, ms: Seq<MilestoneModel>) -> JobModel {
    JobModel { milestones: ms, disputed: true, status: JobStatus::Disputed, ..job }
}

/// Why a call that needs the admins' approval and an existing job is refused.
pub open spec fn admin_job_refusal(
    s: EscrowModel,
    signers: Seq<Address>,
    job_id: Seq<u8>,
) -> Option<EscrowFailure> {
    if let Some(f) = admin_refusal(s, signers) {
        Some(f)
    } else if !s.jobs.contains_key(job_id) {
        Some(EscrowFailure::Trap(EscrowTrap::JobNotFound))
    } else {
        None
    }
}

/// The outcome of `dispute_job`: every unreleased milestone is under dispute.
pub open spec fn dispute_job_step(
    s: EscrowModel,
    signers: Seq<Address>,
    job_id: Seq<u8>,
) -> Step {
    match admin_job_refusal(s, signers, job_id) {
        Some(f) => Err(f),
        None => {
            let job = s.jobs[job_id];
            match freeze(s, job_id, under_dispute(job, all_disputed(job.milestones))) {
                Err(t) => Err(EscrowFailure::Trap(t)),
                Ok(next) => Ok((next, announcement(EscrowEvent::JobDisputed { job_id }))),
            }
        },
    }
}

/// The milestones with every one of them released and undisputed.
pub open spec fn all_settled(ms: Seq<MilestoneModel>) -> Seq<MilestoneModel> {
    Seq::new(ms.len(), |i: int| MilestoneModel { released: true, disputed: false, ..ms[i] })
}

/// The job with everything settled and nothing left to be paid.
pub open spec fn closed(job: JobModel) -> JobModel {
    JobModel {
        milestones: all_settled(job.milestones),
        status: JobStatus::Completed,
        disputed: false,
        ..job
    }
}

/// Why `resolve_dispute` is refused, the freelancer's record aside.
pub open spec fn resolve_refusal(
    s: EscrowModel,
    signers: Seq<Address>,
    job_id: Seq<u8>,
) -> Option<EscrowFailure> {
    if let Some(f) = admin_job_refusal(s, signers, job_id) {
        Some(f)
    } else if !s.jobs[job_id].disputed {
        Some(EscrowFailure::Error(EscrowError::JobIsNotDisputed))
    } else if milestones::remaining_funds(
        s.jobs[job_id].amount as int,
        s.jobs[job_id].milestones,
    ) is None {
        Some(EscrowFailure::Error(EscrowError::ReleaseAmountCalculationFailed))
    } else {
        None
    }
}

/// The outcome of `resolve_dispute`: the job is completed, and what remained is to be paid to the
/// freelancer, or back to the client.
pub open spec fn resolve_step(
    s: EscrowModel,
    ctx: CallContext,
    signers: Seq<Address>,
    job_id: Seq<u8>,
    approve_remaining: bool,
) -> Step {
    match resolve_refusal(s, signers, job_id) {
        Some(f) => Err(f),
        None => {
            let job = s.jobs[job_id];
            let remaining = milestones::remaining_funds(job.amount as int, job.milestones)->0;
            let to = if approve_remaining {
                job.freelancer
            } else {
                job.client
            };
            match settle(s, job_id, closed(job), ctx.sequence) {
                Err(t) => Err(EscrowFailure::Trap(t)),
                Ok((next, reputation)) => Ok(
                    (
                        next,
                        Receipt {
                            reputation,
                            event: EscrowEvent::JobResolved { job_id, approve_remaining },
                            transfer: payment(ctx, job, to, remaining),
                        },
                    ),
                ),
            }
        },
    }
}

/// Why `dispute_milestone` is refused, the freelancer's record aside.
pub open spec fn dispute_milestone_refusal(
    s: EscrowModel,
    signers: Seq<Address>,
    job_id: Seq<u8>,
    i: u32,
) -> Option<EscrowFailure> {
    if let Some(f) = admin_job_refusal(s, signers, job_id) {
        Some(f)
    } else {
        let job = s.jobs[job_id];
        if i >= job.milestones.len() {
            Some(EscrowFailure::Error(EscrowError::InvalidMilestoneIndex))
        } else if job.milestones[i as int].released {
            Some(EscrowFailure::Error(EscrowError::MilestoneAlreadyReleased))
        } else if job.milestones[i as int].disputed {
            Some(EscrowFailure::Error(EscrowError::MilestoneAlreadyDisputed))
        } else {
            None
        }
    }
}

/// The outcome of `dispute_milestone`: the milestone is under dispute.
pub open spec fn dispute_milestone_step(
    s: EscrowModel,
    signers: Seq<Address>,
    job_id: Seq<u8>,
    i: u32,
) -> Step {
    match dispute_milestone_refusal(s, signers, job_id, i) {
        Some(f) => Err(f),
        None => {
            let job = s.jobs[job_id];
            let ms = job.milestones.update(i as int, disputed(job.milestones[i as int]));
            match freeze(s, job_id, under_dispute(job, ms)) {
                Err(t) => Err(EscrowFailure::Trap(t)),
                Ok(next) => Ok(
                    (
                        next,
                        announcement(EscrowEvent::MilestoneDisputed { job_id, milestone_index: i }),
                    ),
                ),
            }
        },
    }
}

/// The job with the dispute over milestone `i` settled.
pub open spec fn with_resolved(job: JobModel, i: int) -> JobModel {
    let ms = job.milestones.update(
        i,
        MilestoneModel { released: true, disputed: false, ..job.milestones[i] },
    );
    JobModel {
        milestones: ms,
        disputed: milestones::any_disputed(ms),
        status: milestones::status_by_milestones(ms),
        ..job
    }
}

/// Why `resolve_milestone_dispute` is refused, the freelancer's record aside.
pub open spec fn resolve_milestone_refusal(
    s: EscrowModel,
    signers: Seq<Address>,
    job_id: Seq<u8>,
    i: u32,
) -> Option<EscrowFailure> {
    if let Some(f) = admin_job_refusal(s, signers, job_id) {
        Some(f)
    } else {
        let job = s.jobs[job_id];
        let m = job.milestones[i as int];
        if i >= job.milestones.len() {
            Some(EscrowFailure::Error(EscrowError::InvalidMilestoneIndex))
        } else if !m.disputed {
            Some(EscrowFailure::Error(EscrowError::MilestoneIsNotDisputed))
        } else if milestones::payout(job.amount as int, m.percentage as int) is None {
            Some(EscrowFailure::Error(EscrowError::ReleaseAmountCalculationFailed))
        } else {
            None
        }
    }
}

/// The outcome of `resolve_milestone_dispute`: the milestone is released, and its share is to be
/// paid to the freelancer, or back to the client.
pub open spec fn resolve_milestone_step(
    s: EscrowModel,
    ctx: CallContext,
    signers: Seq<Address>,
    job_id: Seq<u8>,
    i: u32,
    approve: bool,
) -> Step {
    match resolve_milestone_refusal(s, signers, job_id, i) {
        Some(f) => Err(f),
        None => {
            let job = s.jobs[job_id];
            let share = milestones::payout(
                job.amount as int,
                job.milestones[i as int].percentage as int,
            )->0;
            let to = if approve {
                job.freelancer
            } else {
                job.client
            };
            match settle(s, job_id, with_resolved(job, i as int), ctx.sequence) {
                Err(t) => Err(EscrowFailure::Trap(t)),
                Ok((next, reputation)) => Ok(
                    (
                        next,
                        Receipt {
                            reputation,
                            event: EscrowEvent::MilestoneResolved {
                                job_id,
                                milestone_index: i,
                                approve,
                            },
                            transfer: payment(ctx, job, to, share),
                        },
                    ),
                ),
            }
        },
    }
}

// Refund.

/// Why `refund_expired_job` is refused.
pub open spec fn refund_refusal(
    s: EscrowModel,
    ctx: CallContext,
    client: Address,
    job_id: Seq<u8>,
) -> Option<EscrowFailure> {
    if !s.jobs.contains_key(job_id) {
        Some(EscrowFailure::Trap(EscrowTrap::JobNotFound))
    } else {
        let job = s.jobs[job_id];
        if job.client != client {
            Some(EscrowFailure::Error(EscrowError::OnlyClientCanRequestRefund))
        } else if ctx.sequence < job.deadline {
            Some(EscrowFailure::Error(EscrowError::JobDeadlineHasNotPassed))
        } else if milestones::any_released(job.milestones) {
            Some(EscrowFailure::Error(EscrowError::CannotRefundMilestonesClaimed))
        } else if milestones::remaining_funds(job.amount as int, job.milestones) is None {
            Some(EscrowFailure::Error(EscrowError::RefundAmountCalculationFailed))
        } else {
            None
        }
    }
}

/// The outcome of `refund_expired_job`: the whole amount of the job is to go back to the client, and
/// the job is closed, so that nothing of it is paid again. It does not count as completed.
pub open spec fn refund_step(
    s: EscrowModel,
    ctx: CallContext,
    client: Address,
    job_id: Seq<u8>,
) -> Step {
    match refund_refusal(s, ctx, client, job_id) {
        Some(f) => Err(f),
        None => {
            let job = s.jobs[job_id];
            Ok(
                (
                    EscrowModel {
                        completions: s.completions.insert(job.id, false),
                        ..with_job(s, job_id, closed(job))
                    },
                    Receipt {
                        reputation: None,
                        event: EscrowEvent::JobRefunded {
                            client,
                            job_id,
                            amount: job.amount,
                        },
                        transfer: payment(ctx, job, client, job.amount as int),
                    },
                ),
            )
        },
    }
}

// Administration.

/// The outcome of `update_release_after`: the freelancer may claim only later.
pub open spec fn release_after_step(
    s: EscrowModel,
    signers: Seq<Address>,
    job_id: Seq<u8>,
    new_release_after: u32,
) -> Step {
    if let Some(f) = admin_job_refusal(s, signers, job_id) {
        Err(f)
    } else if new_release_after <= s.jobs[job_id].release_after {
        Err(EscrowFailure::Error(EscrowError::NewReleaseAfterMustExtendCurrent))
    } else {
        Ok(
            (
                with_job(
                    s,
                    job_id,
                    JobModel { release_after: new_release_after, ..s.jobs[job_id] },
                ),
                announcement(
                    EscrowEvent::ReleaseAfterUpdated { job_id, release_after: new_release_after },
                ),
            ),
        )
    }
}

/// The state with another list of admins.
pub open spec fn with_members(s: EscrowModel, members: Seq<Address>) -> EscrowModel {
    EscrowModel { admins: Some(AdminModel { members, threshold: s.admins->0.threshold }), ..s }
}

/// The outcome of `add_admin`: the list of admins ends in the new one.
pub open spec fn add_admin_step(s: EscrowModel, signers: Seq<Address>, new_admin: Address) -> Step {
    if let Some(f) = admin_refusal(s, signers) {
        Err(f)
    } else if s.admins->0.members.contains(new_admin) {
        Err(EscrowFailure::Error(EscrowError::AddressAlreadyAdmin))
    } else {
        Ok(
            (
                with_members(s, s.admins->0.members.push(new_admin)),
                announcement(EscrowEvent::AdminAdded { admin: new_admin }),
            ),
        )
    }
}

/// The outcome of `remove_admin`: the list of admins no longer holds the address.
pub open spec fn remove_admin_step(
    s: EscrowModel,
    signers: Seq<Address>,
    admin_to_remove: Address,
) -> Step {
    if let Some(f) = admin_refusal(s, signers) {
        Err(f)
    } else {
        let members = s.admins->0.members;
        let rest = admin::without(members, admin_to_remove);
        if !members.contains(admin_to_remove) {
            Err(EscrowFailure::Error(EscrowError::AddressNotAdmin))
        } else if members.len() <= 1 {
            Err(EscrowFailure::Error(EscrowError::CannotRemoveLastAdmin))
        } else if s.admins->0.threshold > rest.len() {
            Err(EscrowFailure::Error(EscrowError::ThresholdExceedsAdminCount))
        } else {
            Ok(
                (
                    with_members(s, rest),
                    announcement(EscrowEvent::AdminRemoved { admin: admin_to_remove }),
                ),
            )
        }
    }
}

/// The outcome of `update_threshold`: another number of admins has to approve.
pub open spec fn threshold_step(
    s: EscrowModel,
    signers: Seq<Address>,
    new_threshold: u32,
) -> Step {
    if let Some(f) = admin_refusal(s, signers) {
        Err(f)
    } else if new_threshold == 0 || new_threshold > s.admins->0.members.len() {
        Err(EscrowFailure::Error(EscrowError::ThresholdMustBeBetweenOneAndAdminCount))
    } else {
        Ok(
            (
                EscrowModel {
                    admins: Some(
                        AdminModel { members: s.admins->0.members, threshold: new_threshold },
                    ),
                    ..s
                },
                announcement(EscrowEvent::ThresholdUpdated { threshold: new_threshold }),
            ),
        )
    }
}

} // verus!
