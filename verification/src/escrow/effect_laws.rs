//! What each call on the escrow contract is for: when it goes through, why it is refused otherwise,
//! and what it changes, announces and pays, told by the fields of the jobs and the arguments alone.

use vstd::prelude::*;

use crate::address::Address;
use crate::context::{CallContext, TokenTransfer};
use crate::escrow::admin;
use crate::escrow::error::{EscrowError, EscrowFailure, EscrowTrap};
use crate::escrow::events::{EscrowEvent, Receipt, ReputationUpdate};
use crate::escrow::state::{AdminModel, EscrowModel};
use crate::escrow::transitions;
use crate::escrow::types::{FreelancerReputation, JobModel, JobStatus, MilestoneModel};

verus! {

/// The call was refused with an error.
pub open spec fn fails(step: transitions::Step, e: EscrowError) -> bool {
    step matches Err(f) && f == EscrowFailure::Error(e)
}

/// The call was aborted.
pub open spec fn aborts(step: transitions::Step, t: EscrowTrap) -> bool {
    step matches Err(f) && f == EscrowFailure::Trap(t)
}

/// The call went through: it leads to the state `next` and announces the event, and moves and records
/// nothing.
pub open spec fn announces(
    step: transitions::Step,
    next: EscrowModel,
    event: EscrowEvent<Seq<u8>>,
) -> bool {
    step matches Ok((n, receipt)) && n == next && receipt.event == event
        && receipt.reputation is None && receipt.transfer is None
}

/// `paid` is `percentage` hundredths of `amount`, rounded down.
pub open spec fn is_share(amount: int, percentage: int, paid: int) -> bool {
    paid * 100 <= amount * percentage < paid * 100 + 100
}

/// The product that a share is computed by fits, or is not needed.
pub open spec fn payable(amount: int, percentage: int) -> bool {
    percentage == 100 || i128::MIN <= amount * percentage <= i128::MAX
}

/// The status is that of a job with these milestones.
pub open spec fn status_fits(status: JobStatus, ms: Seq<MilestoneModel>) -> bool {
    if forall|k: int| 0 <= k < ms.len() ==> (#[trigger] ms[k]).released {
        status == JobStatus::Completed
    } else if exists|k: int| 0 <= k < ms.len() && (#[trigger] ms[k]).disputed {
        status == JobStatus::Disputed
    } else {
        status == JobStatus::PartiallyReleased
    }
}

/// Every milestone but the `i`-th is released.
pub open spec fn is_last_open(ms: Seq<MilestoneModel>, i: int) -> bool {
    forall|k: int| 0 <= k < ms.len() && k != i ==> (#[trigger] ms[k]).released
}

/// What is known of a freelancer, which is nothing where no job was ever given.
pub open spec fn record(s: EscrowModel, freelancer: Address) -> FreelancerReputation {
    if s.reputations.contains_key(freelancer) {
        s.reputations[freelancer]
    } else {
        FreelancerReputation {
            total_jobs: 0,
            completed_jobs: 0,
            disputed_jobs: 0,
            total_value_completed: 0,
            on_time_completions: 0,
            created_at: 0,
        }
    }
}

/// Which count of the freelancer's record is full, so that the job cannot be counted as completed.
pub open spec fn full_count(s: EscrowModel, job: JobModel, sequence: u32) -> Option<EscrowTrap> {
    let r = record(s, job.freelancer);
    if r.completed_jobs == u32::MAX {
        Some(EscrowTrap::CompletedJobsOverflow)
    } else if r.total_value_completed + job.amount > i128::MAX || r.total_value_completed
        + job.amount < i128::MIN {
        Some(EscrowTrap::TotalValueCompletedOverflow)
    } else if sequence <= job.deadline && r.on_time_completions == u32::MAX {
        Some(EscrowTrap::OnTimeCompletionsOverflow)
    } else {
        None
    }
}

/// The record of the job's freelancer goes from `s` to `next` as it does for a paid job: a job that
/// comes to its end now is counted and announced, and nothing else is.
pub open spec fn recorded(
    s: EscrowModel,
    next: EscrowModel,
    job: JobModel,
    ends: bool,
    sequence: u32,
    update: Option<ReputationUpdate>,
) -> bool {
    let r = record(s, job.freelancer);
    let n = record(next, job.freelancer);
    if ends && !s.completions.contains_key(job.id) {
        &&& next.completions == s.completions.insert(job.id, true)
        &&& next.reputations == s.reputations.insert(job.freelancer, n)
        &&& n.total_jobs == r.total_jobs
        &&& n.completed_jobs == r.completed_jobs + 1
        &&& n.disputed_jobs == r.disputed_jobs
        &&& n.total_value_completed == r.total_value_completed + job.amount
        &&& n.on_time_completions == r.on_time_completions + (if sequence <= job.deadline {
            1int
        } else {
            0int
        })
        &&& n.created_at == r.created_at
        &&& update == Some(
            ReputationUpdate {
                freelancer: job.freelancer,
                completed_jobs: n.completed_jobs,
                disputed_jobs: n.disputed_jobs,
                total_value_completed: n.total_value_completed,
            },
        )
    } else {
        &&& next.completions == s.completions
        &&& next.reputations == s.reputations
        &&& update is None
    }
}

/// A dispute over the job goes into the record of its freelancer once.
pub open spec fn dispute_recorded(s: EscrowModel, next: EscrowModel, job: JobModel) -> bool {
    let r = record(s, job.freelancer);
    let n = record(next, job.freelancer);
    if s.disputes_counted.contains_key(job.id) {
        next.disputes_counted == s.disputes_counted && next.reputations == s.reputations
    } else {
        &&& next.disputes_counted == s.disputes_counted.insert(job.id, true)
        &&& next.reputations == s.reputations.insert(job.freelancer, n)
        &&& n.total_jobs == r.total_jobs
        &&& n.completed_jobs == r.completed_jobs
        &&& n.disputed_jobs == r.disputed_jobs + 1
        &&& n.total_value_completed == r.total_value_completed
        &&& n.on_time_completions == r.on_time_completions
        &&& n.created_at == r.created_at
    }
}

/// Enough distinct admins are among the signers.
pub open spec fn approved(s: EscrowModel, signers: Seq<Address>) -> bool {
    s.admins matches Some(a) && admin::distinct_admins(a.members, signers) >= a.threshold
}

/// A call with too few admins among its signers is refused, and one before there are admins is
/// aborted.
pub open spec fn guarded(s: EscrowModel, signers: Seq<Address>, step: transitions::Step) -> bool {
    &&& s.admins is None ==> aborts(step, EscrowTrap::NotInitialized)
    &&& s.admins is Some && !approved(s, signers) ==> fails(
        step,
        EscrowError::InsufficientAdminSignatures,
    )
}

/// What a call returned and left behind is what its step says: a call that goes through returns the
/// receipt and leaves the next state, and a refused one returns the reason and changes nothing.
pub proof fn law_calls_do_what_their_steps_say(
    step: transitions::Step,
    before: EscrowModel,
    after: EscrowModel,
    r: Result<Receipt<Vec<u8>>, EscrowFailure>,
)
    requires
        transitions::follows(step, before, after, r),
    ensures
        step is Ok <==> r is Ok,
        step is Ok ==> r->Ok_0@ == step->Ok_0.1 && after == step->Ok_0.0,
        step is Err ==> r->Err_0 == step->Err_0 && after == before,
{
}

/// A release goes through if and only if the client of the job asks for it, the milestone exists, is
/// neither disputed nor released and is verified where it has an oracle, and its share and the
/// freelancer's record can be computed. Otherwise the reason is the first that applies.
pub proof fn law_when_a_milestone_is_released(
    s: EscrowModel,
    ctx: CallContext,
    client: Address,
    job_id: Seq<u8>,
    i: u32,
)
    ensures
        ({
            let step = transitions::release_step(s, ctx, client, job_id, i);
            let job = s.jobs[job_id];
            let m = job.milestones[i as int];
            let known = s.jobs.contains_key(job_id);
            let own = known && client == job.client;
            let there = own && i < job.milestones.len();
            let open = there && !m.disputed && !m.released;
            let ready = open && (m.oracle is Some ==> m.verified);
            let sound = ready && payable(job.amount as int, m.percentage as int);
            let counts = is_last_open(job.milestones, i as int) && !s.completions.contains_key(
                job.id,
            );
            &&& !known ==> aborts(step, EscrowTrap::JobNotFound)
            &&& known && !own ==> fails(step, EscrowError::OnlyClientCanRelease)
            &&& own && !there ==> fails(step, EscrowError::InvalidMilestoneIndex)
            &&& there && m.disputed ==> fails(step, EscrowError::MilestoneIsDisputed)
            &&& there && !m.disputed && m.released ==> fails(
                step,
                EscrowError::MilestoneAlreadyReleased,
            )
            &&& open && !ready ==> fails(step, EscrowError::MilestoneNotVerifiedByOracle)
            &&& ready && !sound ==> fails(step, EscrowError::ReleaseAmountCalculationFailed)
            &&& sound && counts ==> (full_count(s, job, ctx.sequence) matches Some(t) ==> aborts(
                step,
                t,
            ))
            &&& sound && (counts ==> full_count(s, job, ctx.sequence) is None) ==> step is Ok
        }),
{
    lemma_release_status(s.jobs[job_id], i as int);
}

proof fn lemma_release_status(job: JobModel, i: int)
    ensures
        0 <= i < job.milestones.len() ==> (transitions::with_released(job, i).status
            == JobStatus::Completed <==> is_last_open(job.milestones, i)),
        0 <= i < job.milestones.len() ==> (transitions::with_resolved(job, i).status
            == JobStatus::Completed <==> is_last_open(job.milestones, i)),
        0 <= i < job.milestones.len() ==> status_fits(
            transitions::with_released(job, i).status,
            transitions::with_released(job, i).milestones,
        ),
        0 <= i < job.milestones.len() ==> status_fits(
            transitions::with_resolved(job, i).status,
            transitions::with_resolved(job, i).milestones,
        ),
{
    if 0 <= i < job.milestones.len() {
        let a = transitions::with_released(job, i).milestones;
        let b = transitions::with_resolved(job, i).milestones;
        assert forall|k: int| 0 <= k < job.milestones.len() && k != i implies (
        #[trigger] job.milestones[k]) == a[k] && job.milestones[k] == b[k] by {}
        if is_last_open(job.milestones, i) {
            assert forall|k: int| 0 <= k < a.len() implies (#[trigger] a[k]).released && b[k].released by {
                if k != i {
                    assert(job.milestones[k].released);
                }
            }
        } else {
            let k = choose|k: int|
                0 <= k < job.milestones.len() && k != i && !(#[trigger] job.milestones[k]).released;
            assert(!a[k].released && !b[k].released);
        }
    }
}

/// A release marks the milestone, and that one alone, as released, pays its share of the amount from
/// the contract to the freelancer, and leaves the terms of the job as they are.
pub proof fn law_what_a_release_does(
    s: EscrowModel,
    ctx: CallContext,
    client: Address,
    job_id: Seq<u8>,
    i: u32,
)
    requires
        transitions::release_step(s, ctx, client, job_id, i) is Ok,
    ensures
        ({
            let (next, receipt) = transitions::release_step(s, ctx, client, job_id, i)->Ok_0;
            let (job, after) = (s.jobs[job_id], next.jobs[job_id]);
            let m = job.milestones[i as int];
            &&& after.milestones == job.milestones.update(
                i as int,
                MilestoneModel { released: true, ..m },
            )
            &&& status_fits(after.status, after.milestones)
            &&& after == (JobModel { status: after.status, milestones: after.milestones, ..job })
            &&& next == (EscrowModel {
                jobs: s.jobs.insert(job_id, after),
                reputations: next.reputations,
                completions: next.completions,
                ..s
            })
            &&& recorded(
                s,
                next,
                job,
                is_last_open(job.milestones, i as int),
                ctx.sequence,
                receipt.reputation,
            )
            &&& receipt.transfer matches Some(t) && t.token == job.token && t.from == ctx.contract
                && t.to == job.freelancer && (job.amount >= 0 ==> is_share(
                job.amount as int,
                m.percentage as int,
                t.amount as int,
            )) && receipt.event == (EscrowEvent::MilestoneReleased {
                client,
                job_id,
                milestone_index: i,
                amount: t.amount,
            })
        }),
{
    let job = s.jobs[job_id];
    lemma_release_status(job, i as int);
    lemma_payout_is_share(job.amount as int, job.milestones[i as int].percentage as int);
}

proof fn lemma_payout_is_share(amount: int, percentage: int)
    requires
        i128::MIN <= amount <= i128::MAX,
        percentage >= 0,
    ensures
        crate::escrow::milestones::payout(amount, percentage) is Some <==> payable(
            amount,
            percentage,
        ),
        crate::escrow::milestones::payout(amount, percentage) matches Some(p) ==> i128::MIN <= p
            <= i128::MAX && (amount >= 0 ==> is_share(amount, percentage, p) && p >= 0),
{
    if amount >= 0 {
        assert(amount * percentage >= 0) by (nonlinear_arith)
            requires
                amount >= 0,
                percentage >= 0,
        ;
    }
}

/// A claim goes through if and only if the freelancer of the job asks for it, the release period is
/// over, the milestone exists and is neither disputed nor released, and its share and the
/// freelancer's record can be computed. Otherwise the reason is the first that applies.
pub proof fn law_when_a_milestone_is_claimed(
    s: EscrowModel,
    ctx: CallContext,
    freelancer: Address,
    job_id: Seq<u8>,
    i: u32,
)
    ensures
        ({
            let step = transitions::claim_step(s, ctx, freelancer, job_id, i);
            let job = s.jobs[job_id];
            let m = job.milestones[i as int];
            let known = s.jobs.contains_key(job_id);
            let own = known && freelancer == job.freelancer;
            let due = own && ctx.sequence >= job.release_after;
            let there = due && i < job.milestones.len();
            let open = there && !m.disputed && !m.released;
            let sound = open && payable(job.amount as int, m.percentage as int);
            let counts = is_last_open(job.milestones, i as int) && !s.completions.contains_key(
                job.id,
            );
            &&& !known ==> aborts(step, EscrowTrap::JobNotFound)
            &&& known && !own ==> fails(step, EscrowError::OnlyJobFreelancerCanClaim)
            &&& own && !due ==> fails(step, EscrowError::ReleasePeriodNotReached)
            &&& due && !there ==> fails(step, EscrowError::InvalidMilestoneIndex)
            &&& there && m.disputed ==> fails(
                step,
                EscrowError::MilestoneDisputedCannotClaimMilestone,
            )
            &&& there && !m.disputed && m.released ==> fails(
                step,
                EscrowError::MilestoneAlreadyReleased,
            )
            &&& open && !sound ==> fails(step, EscrowError::ClaimAmountCalculationFailed)
            &&& sound && counts ==> (full_count(s, job, ctx.sequence) matches Some(t) ==> aborts(
                step,
                t,
            ))
            &&& sound && (counts ==> full_count(s, job, ctx.sequence) is None) ==> step is Ok
        }),
{
    lemma_release_status(s.jobs[job_id], i as int);
}

/// A claim does what a release does: it marks the milestone as released and pays its share from the
/// contract to the freelancer.
pub proof fn law_what_a_claim_does(
    s: EscrowModel,
    ctx: CallContext,
    freelancer: Address,
    job_id: Seq<u8>,
    i: u32,
)
    requires
        transitions::claim_step(s, ctx, freelancer, job_id, i) is Ok,
    ensures
        ({
            let (next, receipt) = transitions::claim_step(s, ctx, freelancer, job_id, i)->Ok_0;
            let (job, after) = (s.jobs[job_id], next.jobs[job_id]);
            let m = job.milestones[i as int];
            &&& after.milestones == job.milestones.update(
                i as int,
                MilestoneModel { released: true, ..m },
            )
            &&& status_fits(after.status, after.milestones)
            &&& after == (JobModel { status: after.status, milestones: after.milestones, ..job })
            &&& next == (EscrowModel {
                jobs: s.jobs.insert(job_id, after),
                reputations: next.reputations,
                completions: next.completions,
                ..s
            })
            &&& recorded(
                s,
                next,
                job,
                is_last_open(job.milestones, i as int),
                ctx.sequence,
                receipt.reputation,
            )
            &&& receipt.transfer matches Some(t) && t.token == job.token && t.from == ctx.contract
                && t.to == job.freelancer && (job.amount >= 0 ==> is_share(
                job.amount as int,
                m.percentage as int,
                t.amount as int,
            )) && receipt.event == (EscrowEvent::MilestoneClaimed {
                freelancer,
                job_id,
                milestone_index: i,
                amount: t.amount,
            })
        }),
{
    let job = s.jobs[job_id];
    lemma_release_status(job, i as int);
    lemma_payout_is_share(job.amount as int, job.milestones[i as int].percentage as int);
}

/// The dispute over a milestone is resolved if and only if the admins approve it, the milestone
/// exists and is disputed, and its share and the freelancer's record can be computed. Otherwise the
/// reason is the first that applies.
pub proof fn law_when_a_milestone_dispute_is_resolved(
    s: EscrowModel,
    ctx: CallContext,
    signers: Seq<Address>,
    job_id: Seq<u8>,
    i: u32,
    approve: bool,
)
    ensures
        ({
            let step = transitions::resolve_milestone_step(s, ctx, signers, job_id, i, approve);
            let job = s.jobs[job_id];
            let m = job.milestones[i as int];
            let known = approved(s, signers) && s.jobs.contains_key(job_id);
            let there = known && i < job.milestones.len();
            let open = there && m.disputed;
            let sound = open && payable(job.amount as int, m.percentage as int);
            let counts = is_last_open(job.milestones, i as int) && !s.completions.contains_key(
                job.id,
            );
            &&& guarded(s, signers, step)
            &&& approved(s, signers) && !known ==> aborts(step, EscrowTrap::JobNotFound)
            &&& known && !there ==> fails(step, EscrowError::InvalidMilestoneIndex)
            &&& there && !open ==> fails(step, EscrowError::MilestoneIsNotDisputed)
            &&& open && !sound ==> fails(step, EscrowError::ReleaseAmountCalculationFailed)
            &&& sound && counts ==> (full_count(s, job, ctx.sequence) matches Some(t) ==> aborts(
                step,
                t,
            ))
            &&& sound && (counts ==> full_count(s, job, ctx.sequence) is None) ==> step is Ok
        }),
{
    lemma_release_status(s.jobs[job_id], i as int);
}

/// The resolution of a milestone's dispute pays its share from the contract, to the freelancer if it
/// is approved and back to the client if it is not. It takes the dispute off the milestone and marks
/// it as released, and the job stays marked as disputed exactly as long as one of its milestones is.
pub proof fn law_what_the_resolution_of_a_milestone_dispute_does(
    s: EscrowModel,
    ctx: CallContext,
    signers: Seq<Address>,
    job_id: Seq<u8>,
    i: u32,
    approve: bool,
)
    requires
        transitions::resolve_milestone_step(s, ctx, signers, job_id, i, approve) is Ok,
    ensures
        ({
            let (next, receipt) = transitions::resolve_milestone_step(
                s,
                ctx,
                signers,
                job_id,
                i,
                approve,
            )->Ok_0;
            let (job, after) = (s.jobs[job_id], next.jobs[job_id]);
            let m = job.milestones[i as int];
            &&& after.milestones == job.milestones.update(
                i as int,
                MilestoneModel { released: true, disputed: false, ..m },
            )
            &&& status_fits(after.status, after.milestones)
            &&& after.disputed <==> exists|k: int|
                0 <= k < after.milestones.len() && (#[trigger] after.milestones[k]).disputed
            &&& after == (JobModel {
                status: after.status,
                milestones: after.milestones,
                disputed: after.disputed,
                ..job
            })
            &&& next == (EscrowModel {
                jobs: s.jobs.insert(job_id, after),
                reputations: next.reputations,
                completions: next.completions,
                ..s
            })
            &&& recorded(
                s,
                next,
                job,
                is_last_open(job.milestones, i as int),
                ctx.sequence,
                receipt.reputation,
            )
            &&& receipt.event == (EscrowEvent::MilestoneResolved {
                job_id,
                milestone_index: i,
                approve,
            })
            &&& receipt.transfer matches Some(t) ==> t.token == job.token && t.from == ctx.contract
                && t.amount > 0
            &&& receipt.transfer matches Some(t) ==> (approve ==> t.to == job.freelancer) && (
            !approve ==> t.to == job.client)
            &&& job.amount >= 0 ==> is_share(
                job.amount as int,
                m.percentage as int,
                match receipt.transfer {
                    Some(t) => t.amount as int,
                    None => 0,
                },
            )
            &&& job.amount < 0 ==> receipt.transfer is None
        }),
{
    let job = s.jobs[job_id];
    let (amount, p) = (job.amount as int, job.milestones[i as int].percentage as int);
    lemma_release_status(job, i as int);
    lemma_payout_is_share(amount, p);
    if amount < 0 {
        assert(amount * p <= 0) by (nonlinear_arith)
            requires
                amount < 0,
                p >= 0,
        ;
    }
}

/// What the unreleased milestones of a list come to, each share rounded down by itself, for an amount
/// that is not negative.
pub open spec fn is_remainder(amount: int, ms: Seq<MilestoneModel>, sum: int) -> bool {
    exists|shares: Seq<int>| #[trigger]
        are_unreleased_shares(amount, ms, shares) && sum == total(shares)
}

/// Each item of `shares` is that of the milestone in its place, and zero for a released one.
pub open spec fn are_unreleased_shares(
    amount: int,
    ms: Seq<MilestoneModel>,
    shares: Seq<int>,
) -> bool {
    &&& shares.len() == ms.len()
    &&& forall|k: int|
        0 <= k < ms.len() ==> if (#[trigger] ms[k]).released {
            shares[k] == 0
        } else {
            is_share(amount, ms[k].percentage as int, shares[k])
        }
}

/// The sum of a list of numbers.
pub open spec fn total(shares: Seq<int>) -> int
    decreases shares.len(),
{
    if shares.len() == 0 {
        0
    } else {
        total(shares.drop_last()) + shares.last()
    }
}

/// What remains of a job is the sum of the shares of its unreleased milestones, and it is never
/// negative for an amount that is not.
pub proof fn law_remaining_funds_are_the_unreleased_shares(amount: int, ms: Seq<MilestoneModel>)
    requires
        0 <= amount <= i128::MAX,
        crate::escrow::milestones::remaining_funds(amount, ms) is Some,
    ensures
        is_remainder(amount, ms, crate::escrow::milestones::remaining_funds(amount, ms)->0),
        0 <= crate::escrow::milestones::remaining_funds(amount, ms)->0 <= i128::MAX,
    decreases ms.len(),
{
    if ms.len() == 0 {
        assert(are_unreleased_shares(amount, ms, Seq::empty()));
        assert(total(Seq::empty()) == 0);
    } else {
        let rest = ms.drop_last();
        law_remaining_funds_are_the_unreleased_shares(amount, rest);
        let before = crate::escrow::milestones::remaining_funds(amount, rest)->0;
        let shares = choose|shares: Seq<int>| #[trigger]
            are_unreleased_shares(amount, rest, shares) && before == total(shares);
        let p = ms.last().percentage as int;
        lemma_payout_is_share(amount, p);
        let own = if ms.last().released {
            0
        } else {
            crate::escrow::milestones::payout(amount, p)->0
        };
        let all = shares.push(own);
        assert(all.drop_last() =~= shares);
        assert forall|k: int| 0 <= k < ms.len() implies if (#[trigger] ms[k]).released {
            all[k] == 0
        } else {
            is_share(amount, ms[k].percentage as int, all[k])
        } by {
            if k < rest.len() {
                assert(ms[k] == rest[k]);
            }
        }
        assert(are_unreleased_shares(amount, ms, all));
        assert(total(all) == before + own);
    }
}

proof fn lemma_remaining_fits(amount: int, ms: Seq<MilestoneModel>)
    requires
        i128::MIN <= amount <= i128::MAX,
    ensures
        crate::escrow::milestones::remaining_funds(amount, ms) matches Some(sum) ==> i128::MIN <= sum
            <= i128::MAX && (amount < 0 ==> sum <= 0),
    decreases ms.len(),
{
    if ms.len() > 0 {
        lemma_remaining_fits(amount, ms.drop_last());
        let p = ms.last().percentage as int;
        if amount < 0 {
            assert(amount * p <= 0) by (nonlinear_arith)
                requires
                    amount < 0,
                    p >= 0,
            ;
        }
    }
}

/// What remains is added up milestone by milestone: a released one adds nothing, and another adds its
/// share, as long as the share and the sum fit.
pub proof fn law_remaining_funds_add_up(amount: int, ms: Seq<MilestoneModel>, m: MilestoneModel)
    requires
        0 <= amount <= i128::MAX,
    ensures
        ({
            let before = crate::escrow::milestones::remaining_funds(amount, ms);
            let after = crate::escrow::milestones::remaining_funds(amount, ms.push(m));
            let p = m.percentage as int;
            &&& crate::escrow::milestones::remaining_funds(amount, Seq::empty()) == Some(0int)
            &&& m.released ==> after == before
            &&& before is None || (!m.released && !payable(amount, p)) ==> after is None
            &&& !m.released && payable(amount, p) ==> (before matches Some(sum) ==> forall|
                own: int,
            |
                is_share(amount, p, own) ==> (sum + own <= i128::MAX ==> after == Some(sum + own))
                    && (sum + own > i128::MAX ==> after is None))
        }),
{
    let all = ms.push(m);
    assert(all.drop_last() =~= ms);
    lemma_payout_is_share(amount, m.percentage as int);
    if crate::escrow::milestones::remaining_funds(amount, ms) is Some {
        law_remaining_funds_are_the_unreleased_shares(amount, ms);
    }
}

/// The dispute over a job is resolved if and only if the admins approve it, the job is marked as
/// disputed, and what remains and the freelancer's record can be computed. Otherwise the reason is
/// the first that applies.
pub proof fn law_when_a_dispute_is_resolved(
    s: EscrowModel,
    ctx: CallContext,
    signers: Seq<Address>,
    job_id: Seq<u8>,
    approve: bool,
)
    ensures
        ({
            let step = transitions::resolve_step(s, ctx, signers, job_id, approve);
            let job = s.jobs[job_id];
            let known = approved(s, signers) && s.jobs.contains_key(job_id);
            let open = known && job.disputed;
            let sound = open && crate::escrow::milestones::remaining_funds(
                job.amount as int,
                job.milestones,
            ) is Some;
            let counts = !s.completions.contains_key(job.id);
            &&& guarded(s, signers, step)
            &&& approved(s, signers) && !known ==> aborts(step, EscrowTrap::JobNotFound)
            &&& known && !open ==> fails(step, EscrowError::JobIsNotDisputed)
            &&& open && !sound ==> fails(step, EscrowError::ReleaseAmountCalculationFailed)
            &&& sound && counts ==> (full_count(s, job, ctx.sequence) matches Some(t) ==> aborts(
                step,
                t,
            ))
            &&& sound && (counts ==> full_count(s, job, ctx.sequence) is None) ==> step is Ok
        }),
{
}

/// The job is closed: every milestone is released and none disputed, and nothing else of it changes.
pub open spec fn is_closed(job: JobModel, after: JobModel) -> bool {
    &&& after.status == JobStatus::Completed
    &&& !after.disputed
    &&& after.milestones.len() == job.milestones.len()
    &&& forall|k: int|
        0 <= k < job.milestones.len() ==> #[trigger] after.milestones[k] == (MilestoneModel {
            released: true,
            disputed: false,
            ..job.milestones[k]
        })
    &&& after == (JobModel {
        status: after.status,
        milestones: after.milestones,
        disputed: after.disputed,
        ..job
    })
}

/// The resolution of a job's dispute pays what remains from the contract, to the freelancer if it is
/// approved and back to the client if it is not, and closes the job.
pub proof fn law_what_the_resolution_of_a_dispute_does(
    s: EscrowModel,
    ctx: CallContext,
    signers: Seq<Address>,
    job_id: Seq<u8>,
    approve: bool,
)
    requires
        transitions::resolve_step(s, ctx, signers, job_id, approve) is Ok,
    ensures
        ({
            let (next, receipt) = transitions::resolve_step(
                s,
                ctx,
                signers,
                job_id,
                approve,
            )->Ok_0;
            let (job, after) = (s.jobs[job_id], next.jobs[job_id]);
            &&& is_closed(job, after)
            &&& next == (EscrowModel {
                jobs: s.jobs.insert(job_id, after),
                reputations: next.reputations,
                completions: next.completions,
                ..s
            })
            &&& recorded(s, next, job, true, ctx.sequence, receipt.reputation)
            &&& receipt.event == (EscrowEvent::JobResolved { job_id, approve_remaining: approve })
            &&& receipt.transfer matches Some(t) ==> t.token == job.token && t.from == ctx.contract
                && t.amount > 0
            &&& receipt.transfer matches Some(t) ==> (approve ==> t.to == job.freelancer) && (
            !approve ==> t.to == job.client)
            &&& job.amount >= 0 ==> is_remainder(
                job.amount as int,
                job.milestones,
                match receipt.transfer {
                    Some(t) => t.amount as int,
                    None => 0,
                },
            )
            &&& job.amount < 0 ==> receipt.transfer is None
        }),
{
    let job = s.jobs[job_id];
    lemma_remaining_fits(job.amount as int, job.milestones);
    if job.amount >= 0 {
        law_remaining_funds_are_the_unreleased_shares(job.amount as int, job.milestones);
    }
}

/// A refund goes through if and only if the client of the job asks for it, the deadline has passed,
/// no milestone is released, and what remains can be computed. Otherwise the reason is the first that
/// applies.
pub proof fn law_when_a_job_is_refunded(
    s: EscrowModel,
    ctx: CallContext,
    client: Address,
    job_id: Seq<u8>,
)
    ensures
        ({
            let step = transitions::refund_step(s, ctx, client, job_id);
            let job = s.jobs[job_id];
            let known = s.jobs.contains_key(job_id);
            let own = known && client == job.client;
            let late = own && ctx.sequence >= job.deadline;
            let open = late && forall|k: int|
                0 <= k < job.milestones.len() ==> !(#[trigger] job.milestones[k]).released;
            let sound = open && crate::escrow::milestones::remaining_funds(
                job.amount as int,
                job.milestones,
            ) is Some;
            &&& !known ==> aborts(step, EscrowTrap::JobNotFound)
            &&& known && !own ==> fails(step, EscrowError::OnlyClientCanRequestRefund)
            &&& own && !late ==> fails(step, EscrowError::JobDeadlineHasNotPassed)
            &&& late && !open ==> fails(step, EscrowError::CannotRefundMilestonesClaimed)
            &&& open && !sound ==> fails(step, EscrowError::RefundAmountCalculationFailed)
            &&& sound ==> step is Ok
        }),
{
}

/// A refund pays the whole amount from the contract back to the client and closes the job, which is
/// marked as ended without being counted.
pub proof fn law_what_a_refund_does(
    s: EscrowModel,
    ctx: CallContext,
    client: Address,
    job_id: Seq<u8>,
)
    requires
        transitions::refund_step(s, ctx, client, job_id) is Ok,
    ensures
        ({
            let (next, receipt) = transitions::refund_step(s, ctx, client, job_id)->Ok_0;
            let (job, after) = (s.jobs[job_id], next.jobs[job_id]);
            &&& is_closed(job, after)
            &&& next == (EscrowModel {
                jobs: s.jobs.insert(job_id, after),
                completions: s.completions.insert(job.id, false),
                ..s
            })
            &&& receipt.reputation is None
            &&& receipt.event == (EscrowEvent::JobRefunded { client, job_id, amount: job.amount })
            &&& receipt.transfer == if job.amount > 0 {
                Some(
                    TokenTransfer {
                        token: job.token,
                        from: ctx.contract,
                        to: job.client,
                        amount: job.amount,
                    },
                )
            } else {
                None
            }
        }),
{
}

/// A job is put under dispute if and only if the admins approve it, the job exists, and the dispute
/// can be counted.
pub proof fn law_when_a_job_is_disputed(s: EscrowModel, signers: Seq<Address>, job_id: Seq<u8>)
    ensures
        ({
            let step = transitions::dispute_job_step(s, signers, job_id);
            let job = s.jobs[job_id];
            let known = approved(s, signers) && s.jobs.contains_key(job_id);
            let full = !s.disputes_counted.contains_key(job.id) && record(
                s,
                job.freelancer,
            ).disputed_jobs == u32::MAX;
            &&& guarded(s, signers, step)
            &&& approved(s, signers) && !known ==> aborts(step, EscrowTrap::JobNotFound)
            &&& known && full ==> aborts(step, EscrowTrap::DisputedJobsOverflow)
            &&& known && !full ==> step is Ok
        }),
{
}

/// A dispute over a job puts every unreleased milestone under dispute, takes back what was proved of
/// it, and leaves the released ones as they are.
pub proof fn law_what_a_job_dispute_does(s: EscrowModel, signers: Seq<Address>, job_id: Seq<u8>)
    requires
        transitions::dispute_job_step(s, signers, job_id) is Ok,
    ensures
        ({
            let (next, receipt) = transitions::dispute_job_step(s, signers, job_id)->Ok_0;
            let (job, after) = (s.jobs[job_id], next.jobs[job_id]);
            &&& after.milestones.len() == job.milestones.len()
            &&& forall|k: int|
                0 <= k < job.milestones.len() ==> #[trigger] after.milestones[k] == if
                job.milestones[k].released {
                    job.milestones[k]
                } else {
                    MilestoneModel {
                        disputed: true,
                        verified: false,
                        proof_hash: None,
                        ..job.milestones[k]
                    }
                }
            &&& after == (JobModel {
                status: JobStatus::Disputed,
                disputed: true,
                milestones: after.milestones,
                ..job
            })
            &&& next == (EscrowModel {
                jobs: s.jobs.insert(job_id, after),
                reputations: next.reputations,
                disputes_counted: next.disputes_counted,
                ..s
            })
            &&& dispute_recorded(s, next, job)
            &&& receipt.event == (EscrowEvent::JobDisputed { job_id })
            &&& receipt.reputation is None
            &&& receipt.transfer is None
        }),
{
}

/// A milestone is put under dispute if and only if the admins approve it, the milestone exists and is
/// neither released nor disputed, and the dispute can be counted. Otherwise the reason is the first
/// that applies.
pub proof fn law_when_a_milestone_is_disputed(
    s: EscrowModel,
    signers: Seq<Address>,
    job_id: Seq<u8>,
    i: u32,
)
    ensures
        ({
            let step = transitions::dispute_milestone_step(s, signers, job_id, i);
            let job = s.jobs[job_id];
            let m = job.milestones[i as int];
            let known = approved(s, signers) && s.jobs.contains_key(job_id);
            let there = known && i < job.milestones.len();
            let open = there && !m.released && !m.disputed;
            let full = !s.disputes_counted.contains_key(job.id) && record(
                s,
                job.freelancer,
            ).disputed_jobs == u32::MAX;
            &&& guarded(s, signers, step)
            &&& approved(s, signers) && !known ==> aborts(step, EscrowTrap::JobNotFound)
            &&& known && !there ==> fails(step, EscrowError::InvalidMilestoneIndex)
            &&& there && m.released ==> fails(step, EscrowError::MilestoneAlreadyReleased)
            &&& there && !m.released && m.disputed ==> fails(
                step,
                EscrowError::MilestoneAlreadyDisputed,
            )
            &&& open && full ==> aborts(step, EscrowTrap::DisputedJobsOverflow)
            &&& open && !full ==> step is Ok
        }),
{
}

/// A dispute over a milestone puts that one alone under dispute, takes back what was proved of it,
/// and marks its job as disputed.
pub proof fn law_what_a_milestone_dispute_does(
    s: EscrowModel,
    signers: Seq<Address>,
    job_id: Seq<u8>,
    i: u32,
)
    requires
        transitions::dispute_milestone_step(s, signers, job_id, i) is Ok,
    ensures
        ({
            let (next, receipt) = transitions::dispute_milestone_step(s, signers, job_id, i)->Ok_0;
            let (job, after) = (s.jobs[job_id], next.jobs[job_id]);
            &&& after == (JobModel {
                status: JobStatus::Disputed,
                disputed: true,
                milestones: job.milestones.update(
                    i as int,
                    MilestoneModel {
                        disputed: true,
                        verified: false,
                        proof_hash: None,
                        ..job.milestones[i as int]
                    },
                ),
                ..job
            })
            &&& next == (EscrowModel {
                jobs: s.jobs.insert(job_id, after),
                reputations: next.reputations,
                disputes_counted: next.disputes_counted,
                ..s
            })
            &&& dispute_recorded(s, next, job)
            &&& receipt.event == (EscrowEvent::MilestoneDisputed { job_id, milestone_index: i })
            &&& receipt.reputation is None
            &&& receipt.transfer is None
        }),
{
}

/// A proof is taken if and only if the freelancer of the job hands it in for a milestone that exists
/// and is not released. It is stored as it was given, and the milestone has to be verified anew.
pub proof fn law_what_a_proof_does(
    s: EscrowModel,
    freelancer: Address,
    job_id: Seq<u8>,
    i: u32,
    proof_hash: [u8; 32],
)
    ensures
        ({
            let step = transitions::proof_step(s, freelancer, job_id, i, proof_hash);
            let job = s.jobs[job_id];
            let m = job.milestones[i as int];
            let known = s.jobs.contains_key(job_id);
            let own = known && freelancer == job.freelancer;
            let there = own && i < job.milestones.len();
            &&& !known ==> aborts(step, EscrowTrap::JobNotFound)
            &&& known && !own ==> fails(step, EscrowError::OnlyAssignedFreelancerCanSubmitProof)
            &&& own && !there ==> fails(step, EscrowError::InvalidMilestoneIndex)
            &&& there && m.released ==> fails(step, EscrowError::MilestoneAlreadyCompleted)
            &&& there && !m.released ==> announces(
                step,
                EscrowModel {
                jobs: s.jobs.insert(
                    job_id,
                    JobModel {
                        milestones: job.milestones.update(
                            i as int,
                            MilestoneModel { proof_hash: Some(proof_hash), verified: false, ..m },
                        ),
                        ..job
                    },
                ),
                ..s
            },
                EscrowEvent::ProofSubmitted {
                freelancer,
                job_id,
                milestone_index: i,
            },
            )
        }),
{
}

/// A milestone is verified if and only if its own oracle says so, after a proof and before its
/// release. Nothing but the mark changes.
pub proof fn law_what_a_verification_does(
    s: EscrowModel,
    oracle: Address,
    job_id: Seq<u8>,
    i: u32,
)
    ensures
        ({
            let step = transitions::verify_step(s, oracle, job_id, i);
            let job = s.jobs[job_id];
            let m = job.milestones[i as int];
            let known = s.jobs.contains_key(job_id);
            let there = known && i < job.milestones.len();
            let own = there && m.oracle == Some(oracle);
            let proved = own && m.proof_hash is Some;
            &&& !known ==> aborts(step, EscrowTrap::JobNotFound)
            &&& known && !there ==> fails(step, EscrowError::InvalidMilestoneIndex)
            &&& there && m.oracle is None ==> fails(
                step,
                EscrowError::MilestoneHasNoOracleConfigured,
            )
            &&& there && m.oracle is Some && !own ==> fails(
                step,
                EscrowError::OnlyConfiguredOracleCanVerify,
            )
            &&& own && !proved ==> fails(step, EscrowError::NoProofSubmittedYet)
            &&& proved && m.released ==> fails(step, EscrowError::MilestoneAlreadyCompleted)
            &&& proved && !m.released ==> announces(
                step,
                EscrowModel {
                jobs: s.jobs.insert(
                    job_id,
                    JobModel {
                        milestones: job.milestones.update(
                            i as int,
                            MilestoneModel { verified: true, ..m },
                        ),
                        ..job
                    },
                ),
                ..s
            },
                EscrowEvent::MilestoneVerified {
                oracle,
                job_id,
                milestone_index: i,
            },
            )
        }),
{
}

/// The release period of a job is put off if and only if the admins approve it and the new ledger is
/// later than the old one.
pub proof fn law_what_an_extension_does(
    s: EscrowModel,
    signers: Seq<Address>,
    job_id: Seq<u8>,
    release_after: u32,
)
    ensures
        ({
            let step = transitions::release_after_step(s, signers, job_id, release_after);
            let job = s.jobs[job_id];
            let known = approved(s, signers) && s.jobs.contains_key(job_id);
            &&& guarded(s, signers, step)
            &&& approved(s, signers) && !known ==> aborts(step, EscrowTrap::JobNotFound)
            &&& known && release_after <= job.release_after ==> fails(
                step,
                EscrowError::NewReleaseAfterMustExtendCurrent,
            )
            &&& known && release_after > job.release_after ==> announces(
                step,
                EscrowModel {
                jobs: s.jobs.insert(job_id, JobModel { release_after, ..job }),
                ..s
            },
                EscrowEvent::ReleaseAfterUpdated { job_id, release_after },
            )
        }),
{
}

/// An admin is added if and only if the admins approve it and the address is none yet. It comes last
/// in the list, and the threshold stays.
pub proof fn law_what_the_addition_of_an_admin_does(
    s: EscrowModel,
    signers: Seq<Address>,
    new_admin: Address,
)
    ensures
        ({
            let step = transitions::add_admin_step(s, signers, new_admin);
            let members = s.admins->0.members;
            let already = exists|k: int|
                0 <= k < members.len() && #[trigger] members[k] == new_admin;
            &&& guarded(s, signers, step)
            &&& approved(s, signers) && already ==> fails(step, EscrowError::AddressAlreadyAdmin)
            &&& approved(s, signers) && !already ==> announces(
                step,
                EscrowModel {
                admins: Some(
                    AdminModel {
                        members: members.push(new_admin),
                        threshold: s.admins->0.threshold,
                    },
                ),
                ..s
            },
                EscrowEvent::AdminAdded { admin: new_admin },
            )
        }),
{
}

/// An admin is removed if and only if the admins approve it, the address is one of them and not the
/// only one, and enough are left for the threshold, which stays.
pub proof fn law_what_the_removal_of_an_admin_does(
    s: EscrowModel,
    signers: Seq<Address>,
    leaver: Address,
)
    ensures
        ({
            let step = transitions::remove_admin_step(s, signers, leaver);
            let members = s.admins->0.members;
            let rest = admin::without(members, leaver);
            let there = exists|k: int| 0 <= k < members.len() && #[trigger] members[k] == leaver;
            let ok = approved(s, signers);
            &&& guarded(s, signers, step)
            &&& ok && !there ==> fails(step, EscrowError::AddressNotAdmin)
            &&& ok && there && members.len() <= 1 ==> fails(
                step,
                EscrowError::CannotRemoveLastAdmin,
            )
            &&& ok && there && members.len() > 1 && rest.len() < s.admins->0.threshold ==> fails(
                step,
                EscrowError::ThresholdExceedsAdminCount,
            )
            &&& ok && there && members.len() > 1 && rest.len() >= s.admins->0.threshold
                ==> announces(
                step,
                EscrowModel {
                admins: Some(AdminModel { members: rest, threshold: s.admins->0.threshold }),
                ..s
            },
                EscrowEvent::AdminRemoved { admin: leaver },
            )
        }),
{
}

/// The threshold is changed if and only if the admins approve it and it lies between one and their
/// number.
pub proof fn law_what_a_new_threshold_does(
    s: EscrowModel,
    signers: Seq<Address>,
    threshold: u32,
)
    ensures
        ({
            let step = transitions::threshold_step(s, signers, threshold);
            let members = s.admins->0.members;
            let ok = approved(s, signers);
            &&& guarded(s, signers, step)
            &&& ok && !(1 <= threshold <= members.len()) ==> fails(
                step,
                EscrowError::ThresholdMustBeBetweenOneAndAdminCount,
            )
            &&& ok && 1 <= threshold <= members.len() ==> announces(
                step,
                EscrowModel {
                admins: Some(AdminModel { members, threshold }),
                ..s
            },
                EscrowEvent::ThresholdUpdated { threshold },
            )
        }),
{
}

/// The contract is initialized once, with at least one admin and a threshold between one and their
/// number. The admins are those given, and nothing else changes.
pub proof fn law_what_initialization_does(s: EscrowModel, admins: Seq<Address>, threshold: u32)
    ensures
        s.admins is Some ==> transitions::initialize_refusal(s, admins, threshold) == Some(
            EscrowFailure::Error(EscrowError::AlreadyInitialized),
        ),
        s.admins is None && admins.len() == 0 ==> transitions::initialize_refusal(
            s,
            admins,
            threshold,
        ) == Some(EscrowFailure::Error(EscrowError::AdminSetMustNotBeEmpty)),
        s.admins is None && admins.len() > 0 && !(1 <= threshold <= admins.len())
            ==> transitions::initialize_refusal(s, admins, threshold) == Some(
            EscrowFailure::Error(EscrowError::ThresholdMustBeBetweenOneAndAdminCount),
        ),
        s.admins is None && 1 <= threshold <= admins.len() ==> transitions::initialize_refusal(
            s,
            admins,
            threshold,
        ) is None,
        transitions::initialized(s, admins, threshold) == (EscrowModel {
            admins: Some(AdminModel { members: admins, threshold }),
            ..s
        }),
{
}

/// A job is created if and only if its amount is positive, its release period is long enough and ends
/// by the deadline, its id is new, its milestones are valid and add up to a hundred, and the numbers of
/// ledgers and jobs fit. Otherwise the reason is the first that applies.
pub proof fn law_when_a_job_is_created(
    s: EscrowModel,
    ctx: CallContext,
    client: Address,
    freelancer: Address,
    job_id: Seq<u8>,
    token: Address,
    amount: i128,
    ms: Seq<MilestoneModel>,
    release_after: u32,
)
    ensures
        ({
            let step = transitions::create_step(
                s,
                ctx,
                client,
                freelancer,
                job_id,
                token,
                amount,
                ms,
                release_after,
            );
            let paid = amount > 0;
            let long = paid && release_after >= 10;
            let fresh = long && !s.jobs.contains_key(job_id);
            let valid = fresh && crate::escrow::milestones::list_fault(ms) is None;
            let whole = valid && crate::escrow::milestones::percentage_sum(ms) == 100;
            let dated = whole && ctx.sequence + 1_555_200 <= u32::MAX && ctx.sequence
                + release_after <= u32::MAX;
            let timely = dated && release_after <= 1_555_200;
            let known = timely && record(s, freelancer).total_jobs < u32::MAX;
            &&& !paid ==> fails(step, EscrowError::AmountMustBePositive)
            &&& paid && !long ==> fails(step, EscrowError::ReleaseAfterBelowMinimum)
            &&& long && !fresh ==> fails(step, EscrowError::JobAlreadyExists)
            &&& fresh ==> (crate::escrow::milestones::list_fault(ms) matches Some(e) ==> fails(
                step,
                e,
            ))
            &&& valid && !whole ==> if crate::escrow::milestones::percentage_sum(ms) > u32::MAX {
                aborts(step, EscrowTrap::MilestonePercentageOverflow)
            } else {
                fails(step, EscrowError::MilestonesMustSumTo100)
            }
            &&& whole && !dated ==> aborts(step, EscrowTrap::LedgerSequenceOverflow)
            &&& dated && !timely ==> fails(step, EscrowError::ReleaseAfterExceedsDeadline)
            &&& timely && !known ==> aborts(step, EscrowTrap::TotalJobsOverflow)
            &&& known && s.job_count == u32::MAX ==> aborts(step, EscrowTrap::JobCountOverflow)
            &&& known && s.job_count < u32::MAX ==> step is Ok
        }),
{
}

/// A creation stores the job as it was agreed, with its deadline and its release period counted from
/// the current ledger, lists and counts it, begins or extends the freelancer's record, and moves the
/// whole amount from the client to the contract.
pub proof fn law_what_a_creation_does(
    s: EscrowModel,
    ctx: CallContext,
    client: Address,
    freelancer: Address,
    job_id: Seq<u8>,
    token: Address,
    amount: i128,
    ms: Seq<MilestoneModel>,
    release_after: u32,
)
    requires
        transitions::create_step(
            s,
            ctx,
            client,
            freelancer,
            job_id,
            token,
            amount,
            ms,
            release_after,
        ) is Ok,
    ensures
        ({
            let (next, receipt) = transitions::create_step(
                s,
                ctx,
                client,
                freelancer,
                job_id,
                token,
                amount,
                ms,
                release_after,
            )->Ok_0;
            let job = next.jobs[job_id];
            let (r, n) = (record(s, freelancer), record(next, freelancer));
            &&& job.id == job_id
            &&& job.client == client
            &&& job.freelancer == freelancer
            &&& job.token == token
            &&& job.amount == amount
            &&& job.status == JobStatus::Escrowed
            &&& job.milestones == ms
            &&& !job.disputed
            &&& job.release_after == ctx.sequence + release_after
            &&& job.deadline == ctx.sequence + 1_555_200
            &&& next == (EscrowModel {
                jobs: s.jobs.insert(job_id, job),
                job_count: next.job_count,
                job_ids: s.job_ids.push(job_id),
                reputations: s.reputations.insert(freelancer, n),
                ..s
            })
            &&& next.job_count == s.job_count + 1
            &&& n.total_jobs == r.total_jobs + 1
            &&& n.completed_jobs == r.completed_jobs
            &&& n.disputed_jobs == r.disputed_jobs
            &&& n.total_value_completed == r.total_value_completed
            &&& n.on_time_completions == r.on_time_completions
            &&& n.created_at == if s.reputations.contains_key(freelancer) {
                r.created_at
            } else {
                ctx.sequence
            }
            &&& receipt == (Receipt {
                reputation: None,
                event: EscrowEvent::JobCreated { client, job_id, freelancer, amount },
                transfer: Some(
                    TokenTransfer { token, from: client, to: ctx.contract, amount },
                ),
            })
        }),
{
}

/// The milestones of a job are amended if and only if its client and its freelancer agree, nothing of
/// it is released or disputed, and the new ones are accepted. Otherwise the reason is the first that
/// applies. Then the job has the new milestones and one amendment more, and nothing else changes.
pub proof fn law_what_an_amendment_does(
    s: EscrowModel,
    client: Address,
    freelancer: Address,
    job_id: Seq<u8>,
    ms: Seq<MilestoneModel>,
)
    ensures
        ({
            let step = transitions::amend_step(s, client, freelancer, job_id, ms);
            let job = s.jobs[job_id];
            let known = s.jobs.contains_key(job_id);
            let asked = known && client == job.client;
            let agreed = asked && freelancer == job.freelancer;
            let early = agreed && job.status == JobStatus::Escrowed && forall|k: int|
                0 <= k < job.milestones.len() ==> !(#[trigger] job.milestones[k]).released
                    && !job.milestones[k].disputed;
            let valid = early && crate::escrow::milestones::list_fault(ms) is None;
            let fit = valid && crate::escrow::milestones::amendment_refusal(ms) is None;
            let count = if s.amendments.contains_key(job_id) {
                s.amendments[job_id]
            } else {
                0
            };
            &&& !known ==> aborts(step, EscrowTrap::JobNotFound)
            &&& known && !asked ==> fails(step, EscrowError::OnlyJobClientCanAmend)
            &&& asked && !agreed ==> fails(step, EscrowError::OnlyJobFreelancerCanAmend)
            &&& agreed && !early ==> fails(step, EscrowError::AmendmentOnlyBeforeRelease)
            &&& early ==> (crate::escrow::milestones::list_fault(ms) matches Some(e) ==> fails(
                step,
                e,
            ))
            &&& valid ==> (crate::escrow::milestones::amendment_refusal(ms) matches Some(f)
                ==> step is Err && step->Err_0 == f)
            &&& fit && count == u32::MAX ==> aborts(step, EscrowTrap::AmendmentCountOverflow)
            &&& fit && count < u32::MAX ==> announces(
                step,
                EscrowModel {
                    jobs: s.jobs.insert(job_id, JobModel { milestones: ms, ..job }),
                    amendments: s.amendments.insert(job_id, (count + 1) as u32),
                    ..s
                },
                EscrowEvent::JobAmended {
                    client,
                    job_id,
                    old_milestone_count: job.milestones.len() as usize,
                    new_milestone_count: ms.len() as usize,
                    amendment_count: (count + 1) as u32,
                },
            )
        }),
{
}

} // verus!
