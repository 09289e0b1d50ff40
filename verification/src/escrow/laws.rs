//! What holds of the escrow contract whatever is called.

use vstd::prelude::*;

use crate::address::Address;
use crate::context::CallContext;
use crate::escrow::admin;
use crate::escrow::calls;
use crate::escrow::calls::EscrowCall;
use crate::escrow::error::{EscrowError, EscrowFailure};
use crate::escrow::milestones;
use crate::escrow::state;
use crate::escrow::state::EscrowModel;
use crate::escrow::transitions;
use crate::escrow::types::{JobModel, JobStatus, MilestoneModel};

verus! {

/// The admins can be asked for approval: it takes at least one of them and no more than there are.
pub open spec fn admins_well_formed(s: EscrowModel) -> bool {
    s.admins matches Some(a) ==> 1 <= a.threshold <= a.members.len()
}

/// A job stored under its own id, over a positive amount that its milestones share out.
pub open spec fn job_well_formed(job_id: Seq<u8>, job: JobModel) -> bool {
    &&& job.id == job_id
    &&& job.amount > 0
    &&& milestones::list_fault(job.milestones) is None
    &&& milestones::percentage_sum(job.milestones) == 100
}

/// The jobs are exactly the listed ones, each listed once, and they are counted.
pub open spec fn jobs_listed(s: EscrowModel) -> bool {
    &&& s.job_ids.no_duplicates()
    &&& s.job_count == s.job_ids.len()
    &&& forall|id: Seq<u8>|
        #![trigger s.jobs.contains_key(id)]
        #![trigger s.job_ids.contains(id)]
        s.jobs.contains_key(id) <==> s.job_ids.contains(id)
}

/// What holds of every state that calls lead to.
pub open spec fn well_formed(s: EscrowModel) -> bool {
    &&& admins_well_formed(s)
    &&& jobs_listed(s)
    &&& forall|id: Seq<u8>| #[trigger] s.jobs.contains_key(id) ==> job_well_formed(id, s.jobs[id])
}

/// The state before the first call is well-formed.
pub proof fn law_empty_state_is_well_formed()
    ensures
        well_formed(state::empty_state()),
{
}

/// Initialization keeps the state well-formed.
pub proof fn law_initialize_keeps_state_well_formed(
    s: EscrowModel,
    admins: Seq<Address>,
    threshold: u32,
)
    requires
        well_formed(s),
        transitions::initialize_refusal(s, admins, threshold) is None,
    ensures
        well_formed(transitions::initialized(s, admins, threshold)),
{
}

proof fn lemma_faults_by_shape(a: Seq<MilestoneModel>, b: Seq<MilestoneModel>)
    requires
        a.len() == b.len(),
        forall|i: int|
            0 <= i < a.len() ==> (#[trigger] a[i]).name == b[i].name && a[i].percentage
                == b[i].percentage,
    ensures
        milestones::first_fault(a) == milestones::first_fault(b),
        milestones::percentage_sum(a) == milestones::percentage_sum(b),
    decreases a.len(),
{
    if a.len() > 0 {
        assert(a.last() == a[a.len() - 1] && b.last() == b[b.len() - 1]);
        assert forall|i: int| 0 <= i < a.drop_last().len() implies (#[trigger] a.drop_last()[i]).name
            == b.drop_last()[i].name && a.drop_last()[i].percentage
            == b.drop_last()[i].percentage by {
            assert(a.drop_last()[i] == a[i]);
        }
        lemma_faults_by_shape(a.drop_last(), b.drop_last());
    }
}

/// Milestones keep their names and percentages.
pub open spec fn same_shape(a: Seq<MilestoneModel>, b: Seq<MilestoneModel>) -> bool {
    &&& a.len() == b.len()
    &&& forall|i: int|
        0 <= i < a.len() ==> (#[trigger] a[i]).name == b[i].name && a[i].percentage
            == b[i].percentage
}

proof fn lemma_same_shape_keeps_job_well_formed(
    job_id: Seq<u8>,
    before: JobModel,
    after: JobModel,
)
    requires
        job_well_formed(job_id, before),
        after.id == before.id,
        after.amount == before.amount,
        same_shape(before.milestones, after.milestones),
    ensures
        job_well_formed(job_id, after),
{
    let a = before.milestones;
    let b = after.milestones;
    lemma_faults_by_shape(a, b);
    assert forall|i: int, j: int| 0 <= i < j < b.len() implies (#[trigger] b[i]).name != (
    #[trigger] b[j]).name by {
        assert(a[i].name != a[j].name);
    }
}

/// A call about an existing job changes that job, and no list of jobs or admins.
proof fn lemma_call_changes_one_job(s: EscrowModel, call: EscrowCall)
    requires
        calls::outcome(s, call) is Ok,
        calls::subject(call) is Some,
        call !is CreateJob,
    ensures
        ({
            let next = calls::outcome(s, call)->Ok_0.0;
            let id = calls::subject(call)->0;
            &&& s.jobs.contains_key(id)
            &&& next.jobs == s.jobs.insert(id, next.jobs[id])
            &&& next.job_ids == s.job_ids
            &&& next.job_count == s.job_count
            &&& next.admins == s.admins
        }),
{
}

/// Every call keeps the state well-formed: in particular, the number of admins that have to approve
/// stays between one and the number of admins, and a job's percentages always add up to 100.
pub proof fn law_every_call_keeps_state_well_formed(s: EscrowModel, call: EscrowCall)
    requires
        well_formed(s),
        calls::outcome(s, call) is Ok,
    ensures
        well_formed(calls::outcome(s, call)->Ok_0.0),
{
    let next = calls::outcome(s, call)->Ok_0.0;
    if call is CreateJob {
        lemma_creation_keeps_state_well_formed(s, call);
    } else if calls::subject(call) is Some {
        let id = calls::subject(call)->0;
        lemma_call_changes_one_job(s, call);
        if call is AmendJobMilestones {
            assert(job_well_formed(id, next.jobs[id]));
        } else {
            law_terms_of_a_job_never_change(s, call, id);
            lemma_same_shape_keeps_job_well_formed(id, s.jobs[id], next.jobs[id]);
        }
        lemma_well_formed_by_one_job(s, next, id);
    }
}

proof fn lemma_well_formed_by_one_job(s: EscrowModel, next: EscrowModel, id: Seq<u8>)
    requires
        well_formed(s),
        s.jobs.contains_key(id),
        next.jobs == s.jobs.insert(id, next.jobs[id]),
        next.job_ids == s.job_ids,
        next.job_count == s.job_count,
        next.admins == s.admins,
        job_well_formed(id, next.jobs[id]),
    ensures
        well_formed(next),
{
}

proof fn lemma_creation_keeps_state_well_formed(s: EscrowModel, call: EscrowCall)
    requires
        well_formed(s),
        call is CreateJob,
        calls::outcome(s, call) is Ok,
    ensures
        well_formed(calls::outcome(s, call)->Ok_0.0),
{
    let next = calls::outcome(s, call)->Ok_0.0;
    let job_id = calls::subject(call)->0;
    lemma_push_unique(s.job_ids, job_id);
    assert(jobs_listed(next));
    assert(job_well_formed(job_id, next.jobs[job_id]));
}

proof fn lemma_push_unique(ids: Seq<Seq<u8>>, id: Seq<u8>)
    requires
        ids.no_duplicates(),
        !ids.contains(id),
    ensures
        ids.push(id).no_duplicates(),
        forall|x: Seq<u8>| ids.push(id).contains(x) <==> ids.contains(x) || x == id,
{
    assert forall|x: Seq<u8>| ids.push(id).contains(x) <==> ids.contains(x) || x == id by {
        vstd::seq_lib::lemma_seq_contains_after_push(ids, id, x);
    }
}

/// A call is about one job at most: every other job stays as it is.
pub proof fn law_other_jobs_are_untouched(s: EscrowModel, call: EscrowCall, other: Seq<u8>)
    requires
        calls::outcome(s, call) is Ok,
        calls::subject(call) != Some(other),
    ensures
        calls::outcome(s, call)->Ok_0.0.jobs.contains_key(other) <==> s.jobs.contains_key(other),
        s.jobs.contains_key(other) ==> calls::outcome(s, call)->Ok_0.0.jobs[other]
            == s.jobs[other],
{
}

/// No call changes the parties, the token, the amount or the deadline of a job; none but an
/// amendment changes the names and percentages of its milestones.
#[verifier::spinoff_prover]
#[verifier::rlimit(40)]
pub proof fn law_terms_of_a_job_never_change(s: EscrowModel, call: EscrowCall, job_id: Seq<u8>)
    requires
        calls::outcome(s, call) is Ok,
        s.jobs.contains_key(job_id),
    ensures
        ({
            let next = calls::outcome(s, call)->Ok_0.0;
            let (before, after) = (s.jobs[job_id], next.jobs[job_id]);
            &&& next.jobs.contains_key(job_id)
            &&& after.id == before.id
            &&& after.client == before.client
            &&& after.freelancer == before.freelancer
            &&& after.token == before.token
            &&& after.amount == before.amount
            &&& after.deadline == before.deadline
            &&& call !is AmendJobMilestones ==> same_shape(before.milestones, after.milestones)
        }),
{
}

/// A call that needs approval goes through only with enough distinct admins among its signers.
pub proof fn law_approval_needs_threshold(s: EscrowModel, call: EscrowCall)
    requires
        calls::approvers(call) is Some,
        calls::outcome(s, call) is Ok,
    ensures
        s.admins matches Some(a) && admin::distinct_admins(a.members, calls::approvers(call)->0)
            >= a.threshold,
{
}

/// Only calls with the admins' approval change the admins.
pub proof fn law_admins_change_only_with_approval(s: EscrowModel, call: EscrowCall)
    requires
        calls::outcome(s, call) is Ok,
        calls::outcome(s, call)->Ok_0.0.admins != s.admins,
    ensures
        calls::approvers(call) is Some,
{
}

/// A milestone that is released stays released.
pub proof fn law_released_stays_released(
    s: EscrowModel,
    call: EscrowCall,
    job_id: Seq<u8>,
    i: int,
)
    requires
        calls::outcome(s, call) is Ok,
        s.jobs.contains_key(job_id),
        0 <= i < s.jobs[job_id].milestones.len(),
        s.jobs[job_id].milestones[i].released,
    ensures
        calls::outcome(s, call)->Ok_0.0.jobs[job_id].milestones[i].released,
{
}

/// A job that has left the status `Escrowed` never has it again.
pub proof fn law_escrowed_is_left_for_good(s: EscrowModel, call: EscrowCall, job_id: Seq<u8>)
    requires
        calls::outcome(s, call) is Ok,
        s.jobs.contains_key(job_id),
        s.jobs[job_id].status != JobStatus::Escrowed,
    ensures
        calls::outcome(s, call)->Ok_0.0.jobs[job_id].status != JobStatus::Escrowed,
{
}

/// A released milestone is not paid a second time, neither by a release nor by a claim.
pub proof fn law_released_milestone_is_not_paid_again(
    s: EscrowModel,
    ctx: CallContext,
    caller: Address,
    job_id: Seq<u8>,
    i: u32,
)
    requires
        s.jobs.contains_key(job_id),
        i < s.jobs[job_id].milestones.len(),
        s.jobs[job_id].milestones[i as int].released,
    ensures
        transitions::release_step(s, ctx, caller, job_id, i) is Err,
        transitions::claim_step(s, ctx, caller, job_id, i) is Err,
{
}

/// After a release or a claim the milestone is released, so that the next one is refused.
pub proof fn law_milestone_is_paid_once(
    s: EscrowModel,
    call: EscrowCall,
    ctx: CallContext,
    caller: Address,
    job_id: Seq<u8>,
    i: u32,
)
    requires
        calls::outcome(s, call) is Ok,
        call is ReleaseMilestone || call is ClaimMilestone,
        calls::subject(call) == Some(job_id),
        calls::milestone_of(call) == Some(i),
    ensures
        ({
            let next = calls::outcome(s, call)->Ok_0.0;
            &&& next.jobs[job_id].milestones[i as int].released
            &&& transitions::release_step(next, ctx, caller, job_id, i) is Err
            &&& transitions::claim_step(next, ctx, caller, job_id, i) is Err
        }),
{
}

/// A call about one milestone changes that one: the others are as before.
pub proof fn law_other_milestones_are_untouched(s: EscrowModel, call: EscrowCall, j: int)
    requires
        calls::outcome(s, call) is Ok,
        calls::milestone_of(call) matches Some(i) && i != j,
        0 <= j < s.jobs[calls::subject(call)->0].milestones.len(),
    ensures
        calls::outcome(s, call)->Ok_0.0.jobs[calls::subject(call)->0].milestones[j]
            == s.jobs[calls::subject(call)->0].milestones[j],
{
}

/// A disputed job is frozen: no milestone of it can be released or claimed, and its milestones
/// cannot be amended.
pub proof fn law_disputed_job_is_frozen(
    s: EscrowModel,
    signers: Seq<Address>,
    job_id: Seq<u8>,
    ctx: CallContext,
    client: Address,
    freelancer: Address,
    i: u32,
    ms: Seq<MilestoneModel>,
)
    requires
        transitions::dispute_job_step(s, signers, job_id) is Ok,
    ensures
        ({
            let next = transitions::dispute_job_step(s, signers, job_id)->Ok_0.0;
            &&& next.jobs[job_id].disputed
            &&& next.jobs[job_id].status == JobStatus::Disputed
            &&& transitions::release_step(next, ctx, client, job_id, i) is Err
            &&& transitions::claim_step(next, ctx, freelancer, job_id, i) is Err
            &&& transitions::amend_step(next, client, freelancer, job_id, ms) is Err
        }),
{
}

/// A disputed milestone is frozen: it can be neither released nor claimed.
pub proof fn law_disputed_milestone_is_frozen(
    s: EscrowModel,
    ctx: CallContext,
    caller: Address,
    job_id: Seq<u8>,
    i: u32,
)
    requires
        s.jobs.contains_key(job_id),
        i < s.jobs[job_id].milestones.len(),
        s.jobs[job_id].milestones[i as int].disputed,
    ensures
        transitions::release_step(s, ctx, caller, job_id, i) is Err,
        transitions::claim_step(s, ctx, caller, job_id, i) is Err,
{
}

/// What is under dispute stays so until it is resolved or refunded: no other call takes the dispute
/// off a milestone or the mark off its job.
#[verifier::spinoff_prover]
#[verifier::rlimit(40)]
pub proof fn law_dispute_lasts_until_resolved(
    s: EscrowModel,
    call: EscrowCall,
    job_id: Seq<u8>,
    i: int,
)
    requires
        calls::outcome(s, call) is Ok,
        s.jobs.contains_key(job_id),
        0 <= i < s.jobs[job_id].milestones.len(),
        calls::subject(call) == Some(job_id) ==> call !is ResolveDispute
            && call !is ResolveMilestoneDispute && call !is RefundExpiredJob,
    ensures
        s.jobs[job_id].milestones[i].disputed ==> calls::outcome(
            s,
            call,
        )->Ok_0.0.jobs[job_id].milestones[i].disputed,
        s.jobs[job_id].disputed ==> calls::outcome(s, call)->Ok_0.0.jobs[job_id].disputed,
{
}

/// A dispute over one milestone leaves the others payable: whether one of them can be released or
/// claimed does not depend on it, the freelancer's record aside.
pub proof fn law_milestone_dispute_spares_the_others(
    s: EscrowModel,
    signers: Seq<Address>,
    job_id: Seq<u8>,
    i: u32,
    ctx: CallContext,
    caller: Address,
    j: u32,
)
    requires
        transitions::dispute_milestone_step(s, signers, job_id, i) is Ok,
        j != i,
    ensures
        transitions::claim_refusal(
            transitions::dispute_milestone_step(s, signers, job_id, i)->Ok_0.0,
            ctx,
            caller,
            job_id,
            j,
        ) == transitions::claim_refusal(s, ctx, caller, job_id, j),
        transitions::release_refusal(
            transitions::dispute_milestone_step(s, signers, job_id, i)->Ok_0.0,
            caller,
            job_id,
            j,
        ) == transitions::release_refusal(s, caller, job_id, j),
{
}

/// The milestones that `dispute_job` puts under dispute can be resolved one by one: each of them
/// is disputed and its job is open to `resolve_milestone_dispute`.
pub proof fn law_disputed_job_can_be_resolved_by_milestone(
    s: EscrowModel,
    signers: Seq<Address>,
    job_id: Seq<u8>,
    i: u32,
)
    requires
        transitions::dispute_job_step(s, signers, job_id) is Ok,
        i < s.jobs[job_id].milestones.len(),
        !s.jobs[job_id].milestones[i as int].released,
        milestones::payout(
            s.jobs[job_id].amount as int,
            s.jobs[job_id].milestones[i as int].percentage as int,
        ) is Some,
    ensures
        transitions::resolve_milestone_refusal(
            transitions::dispute_job_step(s, signers, job_id)->Ok_0.0,
            signers,
            job_id,
            i,
        ) is None,
{
}

/// A milestone under dispute marks its job as disputed, so that `resolve_dispute` is open to it too.
pub proof fn law_milestone_dispute_opens_job_resolution(
    s: EscrowModel,
    signers: Seq<Address>,
    job_id: Seq<u8>,
    i: u32,
)
    requires
        transitions::dispute_milestone_step(s, signers, job_id, i) is Ok,
        milestones::remaining_funds(
            s.jobs[job_id].amount as int,
            s.jobs[job_id].milestones,
        ) is Some,
    ensures
        transitions::resolve_refusal(
            transitions::dispute_milestone_step(s, signers, job_id, i)->Ok_0.0,
            signers,
            job_id,
        ) is None,
{
    let ms = s.jobs[job_id].milestones;
    let after = transitions::dispute_milestone_step(
        s,
        signers,
        job_id,
        i,
    )->Ok_0.0.jobs[job_id].milestones;
    lemma_remaining_funds_by_flags(s.jobs[job_id].amount as int, ms, after);
}

proof fn lemma_remaining_funds_by_flags(
    amount: int,
    a: Seq<MilestoneModel>,
    b: Seq<MilestoneModel>,
)
    requires
        a.len() == b.len(),
        forall|i: int|
            0 <= i < a.len() ==> (#[trigger] a[i]).released == b[i].released && a[i].percentage
                == b[i].percentage,
    ensures
        milestones::remaining_funds(amount, a) == milestones::remaining_funds(amount, b),
    decreases a.len(),
{
    if a.len() > 0 {
        assert(a.last() == a[a.len() - 1] && b.last() == b[b.len() - 1]);
        assert forall|i: int| 0 <= i < a.drop_last().len() implies (
        #[trigger] a.drop_last()[i]).released == b.drop_last()[i].released
            && a.drop_last()[i].percentage == b.drop_last()[i].percentage by {
            assert(a.drop_last()[i] == a[i]);
        }
        lemma_remaining_funds_by_flags(amount, a.drop_last(), b.drop_last());
    }
}

/// A resolved job is completed: every milestone is released and none disputed, so that nothing of
/// it can be released, claimed or refunded any more.
pub proof fn law_resolved_job_is_completed(
    s: EscrowModel,
    ctx: CallContext,
    signers: Seq<Address>,
    job_id: Seq<u8>,
    approve: bool,
    later: CallContext,
    caller: Address,
    i: u32,
)
    requires
        job_well_formed(job_id, s.jobs[job_id]),
        transitions::resolve_step(s, ctx, signers, job_id, approve) is Ok,
    ensures
        ({
            let next = transitions::resolve_step(s, ctx, signers, job_id, approve)->Ok_0.0;
            let job = next.jobs[job_id];
            &&& job.status == JobStatus::Completed
            &&& !job.disputed
            &&& milestones::all_released(job.milestones)
            &&& !milestones::any_disputed(job.milestones)
            &&& transitions::release_step(next, later, caller, job_id, i) is Err
            &&& transitions::claim_step(next, later, caller, job_id, i) is Err
            &&& transitions::refund_step(next, later, caller, job_id) is Err
        }),
{
    let job = transitions::resolve_step(s, ctx, signers, job_id, approve)->Ok_0.0.jobs[job_id];
    assert(job.milestones[0].released);
}

/// A refunded job is closed: every milestone is released and none disputed, so that nothing of it can
/// be released or claimed, and a second refund is refused.
pub proof fn law_refunded_job_is_closed(
    s: EscrowModel,
    ctx: CallContext,
    client: Address,
    job_id: Seq<u8>,
    later: CallContext,
    caller: Address,
    i: u32,
)
    requires
        job_well_formed(job_id, s.jobs[job_id]),
        transitions::refund_step(s, ctx, client, job_id) is Ok,
    ensures
        ({
            let next = transitions::refund_step(s, ctx, client, job_id)->Ok_0.0;
            let job = next.jobs[job_id];
            &&& job.status == JobStatus::Completed
            &&& !job.disputed
            &&& milestones::all_released(job.milestones)
            &&& !milestones::any_disputed(job.milestones)
            &&& transitions::release_step(next, later, caller, job_id, i) is Err
            &&& transitions::claim_step(next, later, caller, job_id, i) is Err
            &&& transitions::refund_step(next, later, caller, job_id) is Err
            &&& later.sequence >= job.deadline ==> transitions::refund_refusal(
                next,
                later,
                client,
                job_id,
            ) == Some(EscrowFailure::Error(EscrowError::CannotRefundMilestonesClaimed))
            &&& i < job.milestones.len() ==> transitions::release_refusal(next, client, job_id, i)
                == Some(EscrowFailure::Error(EscrowError::MilestoneAlreadyReleased))
            &&& i < job.milestones.len() && later.sequence >= job.release_after
                ==> transitions::claim_refusal(next, later, job.freelancer, job_id, i) == Some(
                EscrowFailure::Error(EscrowError::MilestoneAlreadyReleased),
            )
        }),
{
    let job = transitions::refund_step(s, ctx, client, job_id)->Ok_0.0.jobs[job_id];
    assert(job.milestones[0].released);
}

/// After a payment the status says what the milestones say.
pub proof fn law_status_matches_milestones(s: EscrowModel, call: EscrowCall)
    requires
        calls::outcome(s, call) is Ok,
        call is ReleaseMilestone || call is ClaimMilestone || call is ResolveMilestoneDispute
            || call is ResolveDispute || call is RefundExpiredJob,
    ensures
        ({
            let job = calls::outcome(s, call)->Ok_0.0.jobs[calls::subject(call)->0];
            job.status == milestones::status_by_milestones(job.milestones)
        }),
{
}

/// The dispute mark of a job says whether a milestone of it is disputed, once the dispute over one
/// of them is begun or ended.
pub proof fn law_dispute_mark_matches_milestones(s: EscrowModel, call: EscrowCall)
    requires
        calls::outcome(s, call) is Ok,
        call is ResolveMilestoneDispute || call is DisputeMilestone || call is ResolveDispute
            || call is RefundExpiredJob,
    ensures
        ({
            let job = calls::outcome(s, call)->Ok_0.0.jobs[calls::subject(call)->0];
            job.disputed == milestones::any_disputed(job.milestones)
        }),
{
    let job = calls::outcome(s, call)->Ok_0.0.jobs[calls::subject(call)->0];
    if let EscrowCall::DisputeMilestone { index, .. } = call {
        assert(job.milestones[index as int].disputed);
    }
}

/// An amendment is made only while no milestone is released or disputed. It leaves the amount and the
/// status alone, gives the job milestones that add up to 100 and are neither released nor disputed,
/// and counts as one.
pub proof fn law_amendment_preserves_amount(
    s: EscrowModel,
    client: Address,
    freelancer: Address,
    job_id: Seq<u8>,
    ms: Seq<MilestoneModel>,
)
    requires
        transitions::amend_step(s, client, freelancer, job_id, ms) is Ok,
    ensures
        ({
            let next = transitions::amend_step(s, client, freelancer, job_id, ms)->Ok_0.0;
            &&& !milestones::any_released(s.jobs[job_id].milestones)
            &&& !milestones::any_disputed(s.jobs[job_id].milestones)
            &&& next.jobs[job_id].amount == s.jobs[job_id].amount
            &&& next.jobs[job_id].status == JobStatus::Escrowed
            &&& next.jobs[job_id].milestones == ms
            &&& milestones::percentage_sum(ms) == 100
            &&& !milestones::any_released(ms)
            &&& !milestones::any_disputed(ms)
            &&& transitions::amendment_count(next, job_id) == transitions::amendment_count(
                s,
                job_id,
            ) + 1
        }),
{
    assert forall|i: int| 0 <= i < ms.len() implies !(#[trigger] ms[i]).released
        && !ms[i].disputed by {
        milestones::lemma_percentage_sum_prefix(ms, i);
    }
}

/// No other call counts as an amendment.
pub proof fn law_only_amendments_are_counted(s: EscrowModel, call: EscrowCall, job_id: Seq<u8>)
    requires
        calls::outcome(s, call) is Ok,
        call !is AmendJobMilestones,
    ensures
        transitions::amendment_count(calls::outcome(s, call)->Ok_0.0, job_id)
            == transitions::amendment_count(s, job_id),
{
}

/// The ledger from which on a freelancer may claim is only ever put off, and only by the admins.
pub proof fn law_release_period_is_only_extended(s: EscrowModel, call: EscrowCall, job_id: Seq<u8>)
    requires
        calls::outcome(s, call) is Ok,
        s.jobs.contains_key(job_id),
    ensures
        calls::outcome(s, call)->Ok_0.0.jobs[job_id].release_after >= s.jobs[job_id].release_after,
        calls::outcome(s, call)->Ok_0.0.jobs[job_id].release_after != s.jobs[job_id].release_after
            ==> call is UpdateReleaseAfter,
{
}

/// A new job can be claimed from only after its release period and not before its deadline could
/// pass: the period lies between the minimum and the time to the deadline.
pub proof fn law_new_job_release_period(s: EscrowModel, call: EscrowCall)
    requires
        call is CreateJob,
        calls::outcome(s, call) is Ok,
    ensures
        ({
            let job = calls::outcome(s, call)->Ok_0.0.jobs[calls::subject(call)->0];
            call->CreateJob_ctx.sequence + crate::escrow::types::RELEASE_AFTER_LEDGERS
                <= job.release_after <= job.deadline
        }),
{
}

/// A job is created once: its id cannot be used again.
pub proof fn law_job_ids_are_not_reused(s: EscrowModel, call: EscrowCall)
    requires
        call is CreateJob,
        s.jobs.contains_key(calls::subject(call)->0),
    ensures
        calls::outcome(s, call) is Err,
{
}

/// The client releases a milestone that has an oracle only once the oracle has verified it.
pub proof fn law_release_needs_verification(
    s: EscrowModel,
    ctx: CallContext,
    client: Address,
    job_id: Seq<u8>,
    i: u32,
)
    requires
        transitions::release_step(s, ctx, client, job_id, i) is Ok,
        s.jobs[job_id].milestones[i as int].oracle is Some,
    ensures
        s.jobs[job_id].milestones[i as int].verified,
{
}

/// A milestone becomes verified only by its own oracle and only after a proof was handed in.
pub proof fn law_verified_only_by_the_oracle(
    s: EscrowModel,
    call: EscrowCall,
    job_id: Seq<u8>,
    i: int,
)
    requires
        calls::outcome(s, call) is Ok,
        call !is AmendJobMilestones,
        s.jobs.contains_key(job_id),
        0 <= i < s.jobs[job_id].milestones.len(),
        !s.jobs[job_id].milestones[i].verified,
        calls::outcome(s, call)->Ok_0.0.jobs[job_id].milestones[i].verified,
    ensures
        call matches EscrowCall::VerifyMilestone { oracle, job_id: id, index } && id == job_id
            && index == i && s.jobs[job_id].milestones[i].oracle == Some(oracle)
            && s.jobs[job_id].milestones[i].proof_hash is Some,
{
}

/// A new proof, like a dispute, takes the verification back: until the oracle has verified the
/// milestone anew, the client cannot release it.
pub proof fn law_new_proof_needs_new_verification(
    s: EscrowModel,
    freelancer: Address,
    job_id: Seq<u8>,
    i: u32,
    proof_hash: [u8; 32],
    ctx: CallContext,
    client: Address,
)
    requires
        transitions::proof_step(s, freelancer, job_id, i, proof_hash) is Ok,
        s.jobs[job_id].milestones[i as int].oracle is Some,
    ensures
        ({
            let next = transitions::proof_step(s, freelancer, job_id, i, proof_hash)->Ok_0.0;
            &&& next.jobs[job_id].milestones[i as int].proof_hash == Some(proof_hash)
            &&& transitions::release_step(next, ctx, client, job_id, i) is Err
        }),
{
}

/// Only the parties and the time that a payment asks for: a release comes from the client, a claim
/// from the freelancer once the release period is over, and a refund from the client once the
/// deadline has passed and before any release.
pub proof fn law_who_may_pay_and_when(s: EscrowModel, call: EscrowCall)
    requires
        calls::outcome(s, call) is Ok,
    ensures
        call matches EscrowCall::ReleaseMilestone { client, job_id, .. } ==> client
            == s.jobs[job_id].client,
        call matches EscrowCall::ClaimMilestone { ctx, freelancer, job_id, .. } ==> freelancer
            == s.jobs[job_id].freelancer && ctx.sequence >= s.jobs[job_id].release_after,
        call matches EscrowCall::RefundExpiredJob { ctx, client, job_id } ==> client
            == s.jobs[job_id].client && ctx.sequence >= s.jobs[job_id].deadline
            && !milestones::any_released(s.jobs[job_id].milestones),
{
}

/// What a list of milestones has to be for a job: every percentage positive and all of them adding
/// up to 100. A job over a positive amount, with an unused id, a short name for each milestone and a
/// release period in bounds is created if and only if that holds, limits of the counters aside.
pub proof fn law_creation_depends_on_percentages(
    s: EscrowModel,
    ctx: CallContext,
    freelancer: Address,
    job_id: Seq<u8>,
    amount: i128,
    ms: Seq<MilestoneModel>,
    release_after: u32,
)
    requires
        amount > 0,
        crate::escrow::types::RELEASE_AFTER_LEDGERS <= release_after
            <= crate::escrow::types::DEFAULT_DEADLINE_LEDGERS,
        !s.jobs.contains_key(job_id),
        ms.len() > 0,
        forall|i: int|
            0 <= i < ms.len() ==> (#[trigger] ms[i]).name.len()
                <= crate::escrow::types::MAX_MILESTONE_NAME_LEN,
        milestones::names_distinct(ms),
        ctx.sequence + crate::escrow::types::DEFAULT_DEADLINE_LEDGERS <= u32::MAX,
        transitions::reputation_of(s, freelancer).total_jobs < u32::MAX,
        s.job_count < u32::MAX,
    ensures
        transitions::create_refusal(s, ctx, freelancer, job_id, amount, ms, release_after) is None
            <==> (milestones::percentage_sum(ms) == 100 && forall|i: int|
            0 <= i < ms.len() ==> (#[trigger] ms[i]).percentage > 0),
{
    lemma_first_fault_of_short_names(ms);
}

proof fn lemma_first_fault_of_short_names(ms: Seq<MilestoneModel>)
    requires
        forall|i: int|
            0 <= i < ms.len() ==> (#[trigger] ms[i]).name.len()
                <= crate::escrow::types::MAX_MILESTONE_NAME_LEN,
    ensures
        milestones::first_fault(ms) is None <==> forall|i: int|
            0 <= i < ms.len() ==> (#[trigger] ms[i]).percentage > 0,
    decreases ms.len(),
{
    if ms.len() > 0 {
        let rest = ms.drop_last();
        assert forall|i: int| 0 <= i < rest.len() implies (#[trigger] rest[i]).name.len()
            <= crate::escrow::types::MAX_MILESTONE_NAME_LEN by {
            assert(rest[i] == ms[i]);
        }
        lemma_first_fault_of_short_names(rest);
        assert(ms.last() == ms[ms.len() - 1]);
        if milestones::first_fault(ms) is None {
            assert forall|i: int| 0 <= i < ms.len() implies (#[trigger] ms[i]).percentage > 0 by {
                if i < rest.len() {
                    assert(rest[i] == ms[i]);
                }
            }
        }
        if forall|i: int| 0 <= i < ms.len() ==> (#[trigger] ms[i]).percentage > 0 {
            assert forall|i: int| 0 <= i < rest.len() implies (#[trigger] rest[i]).percentage
                > 0 by {
                assert(rest[i] == ms[i]);
            }
        }
    }
}

} // verus!
