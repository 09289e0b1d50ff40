//! Where the money of a job goes: what is paid out never exceeds what was put in.

use vstd::prelude::*;

use crate::arithmetic;
use crate::context::{CallContext, TokenTransfer};
use crate::escrow::calls;
use crate::escrow::calls::EscrowCall;
use crate::escrow::laws;
use crate::escrow::milestones;
use crate::escrow::state::EscrowModel;
use crate::escrow::transitions;
use crate::escrow::types::{JobModel, MilestoneModel};

verus! {

/// What a percentage of an amount comes to, rounded down.
pub open spec fn share(amount: int, percentage: int) -> int {
    amount * percentage / 100
}

/// The shares of the milestones of a list that are released, or that are not.
pub open spec fn shares(amount: int, ms: Seq<MilestoneModel>, released: bool) -> int
    decreases ms.len(),
{
    if ms.len() == 0 {
        0
    } else {
        shares(amount, ms.drop_last(), released) + if ms.last().released == released {
            share(amount, ms.last().percentage as int)
        } else {
            0
        }
    }
}

/// A payout is the share that it stands for.
pub proof fn law_payout_is_the_share(amount: int, percentage: int)
    requires
        amount >= 0,
        percentage >= 0,
        milestones::payout(amount, percentage) is Some,
    ensures
        milestones::payout(amount, percentage) == Some(share(amount, percentage)),
{
    assert(amount * percentage >= 0) by (nonlinear_arith)
        requires
            amount >= 0,
            percentage >= 0,
    ;
    if percentage == 100 {
        assert(share(amount, 100) == amount);
    }
}

/// A part of an amount is payable wherever a hundred times the amount fits; the whole always is.
pub proof fn law_payout_exists(amount: int, percentage: int)
    requires
        amount >= 0,
        0 <= percentage <= 100,
        percentage == 100 || amount * 100 <= i128::MAX,
    ensures
        milestones::payout(amount, percentage) is Some,
{
    assert(0 <= amount * percentage <= amount * 100) by (nonlinear_arith)
        requires
            amount >= 0,
            0 <= percentage <= 100,
    ;
}

/// The shares of all milestones together, times a hundred, stay within amount times percentages.
proof fn lemma_shares_bound(amount: int, ms: Seq<MilestoneModel>)
    requires
        amount >= 0,
    ensures
        0 <= shares(amount, ms, true),
        0 <= shares(amount, ms, false),
        100 * (shares(amount, ms, true) + shares(amount, ms, false)) <= amount
            * milestones::percentage_sum(ms),
    decreases ms.len(),
{
    if ms.len() > 0 {
        let rest = ms.drop_last();
        lemma_shares_bound(amount, rest);
        let p = ms.last().percentage as int;
        let sum = milestones::percentage_sum(rest);
        assert(amount * (sum + p) == amount * sum + amount * p) by (nonlinear_arith);
        assert(amount * p >= 0) by (nonlinear_arith)
            requires
                amount >= 0,
                p >= 0,
        ;
        assert(milestones::percentage_sum(ms) == sum + p);
    }
}

/// No over-release: the released shares of a job and its unreleased ones never exceed its amount,
/// taken by themselves or together.
pub proof fn law_no_over_release(job_id: Seq<u8>, job: JobModel)
    requires
        laws::job_well_formed(job_id, job),
    ensures
        0 <= shares(job.amount as int, job.milestones, true) <= job.amount,
        0 <= shares(job.amount as int, job.milestones, false) <= job.amount - shares(
            job.amount as int,
            job.milestones,
            true,
        ),
{
    lemma_shares_bound(job.amount as int, job.milestones);
}

/// What remains to be paid of a job is what its unreleased milestones come to.
proof fn lemma_remaining_is_unreleased(amount: int, ms: Seq<MilestoneModel>)
    requires
        amount >= 0,
        milestones::remaining_funds(amount, ms) is Some,
    ensures
        milestones::remaining_funds(amount, ms) == Some(shares(amount, ms, false)),
        arithmetic::fits_i128(shares(amount, ms, false)),
    decreases ms.len(),
{
    if ms.len() > 0 {
        lemma_remaining_is_unreleased(amount, ms.drop_last());
        if !ms.last().released {
            law_payout_is_the_share(amount, ms.last().percentage as int);
        }
    }
}

/// Refund bound: what the unreleased milestones come to is at most the amount less what was
/// released.
pub proof fn law_remaining_funds_bound(job_id: Seq<u8>, job: JobModel)
    requires
        laws::job_well_formed(job_id, job),
        milestones::remaining_funds(job.amount as int, job.milestones) is Some,
    ensures
        ({
            let remaining = milestones::remaining_funds(job.amount as int, job.milestones)->0;
            &&& remaining == shares(job.amount as int, job.milestones, false)
            &&& 0 <= remaining <= job.amount - shares(job.amount as int, job.milestones, true)
        }),
{
    lemma_remaining_is_unreleased(job.amount as int, job.milestones);
    law_no_over_release(job_id, job);
}

/// A list of milestones whose percentages add up to 100 at most is payable wherever a hundred times
/// the amount fits.
proof fn lemma_remaining_exists(amount: int, ms: Seq<MilestoneModel>)
    requires
        0 <= amount,
        amount * 100 <= i128::MAX,
        milestones::percentage_sum(ms) <= 100,
    ensures
        milestones::remaining_funds(amount, ms) is Some,
    decreases ms.len(),
{
    if ms.len() > 0 {
        let rest = ms.drop_last();
        assert(ms.take(ms.len() - 1) =~= rest);
        milestones::lemma_percentage_sum_prefix(ms, ms.len() - 1);
        lemma_remaining_exists(amount, rest);
        lemma_remaining_is_unreleased(amount, rest);
        lemma_shares_bound(amount, rest);
        lemma_shares_bound(amount, ms);
        law_payout_exists(amount, ms.last().percentage as int);
        law_payout_is_the_share(amount, ms.last().percentage as int);
        let sum = milestones::percentage_sum(ms);
        assert(amount * sum <= amount * 100) by (nonlinear_arith)
            requires
                0 <= amount,
                sum <= 100,
        ;
    }
}

/// The funds of a job are never stuck for want of arithmetic: wherever a hundred times the amount
/// fits, each of its milestones and all of them together can be paid out.
pub proof fn law_funds_are_payable(job_id: Seq<u8>, job: JobModel, i: int)
    requires
        laws::job_well_formed(job_id, job),
        job.amount * 100 <= i128::MAX,
        0 <= i < job.milestones.len(),
    ensures
        milestones::payout(job.amount as int, job.milestones[i].percentage as int) is Some,
        milestones::remaining_funds(job.amount as int, job.milestones) is Some,
{
    let ms = job.milestones;
    milestones::lemma_percentage_sum_prefix(ms, i + 1);
    milestones::lemma_percentage_sum_prefix(ms, i);
    assert(ms.take(i + 1).drop_last() =~= ms.take(i));
    law_payout_exists(job.amount as int, ms[i].percentage as int);
    lemma_remaining_exists(job.amount as int, ms);
}

proof fn lemma_shares_update(
    amount: int,
    ms: Seq<MilestoneModel>,
    i: int,
    m: MilestoneModel,
    released: bool,
)
    requires
        0 <= i < ms.len(),
        m.percentage == ms[i].percentage,
    ensures
        shares(amount, ms.update(i, m), released) == shares(amount, ms, released) - (
        if ms[i].released == released {
            share(amount, ms[i].percentage as int)
        } else {
            0
        }) + (if m.released == released {
            share(amount, ms[i].percentage as int)
        } else {
            0
        }),
    decreases ms.len(),
{
    let new = ms.update(i, m);
    if i == ms.len() - 1 {
        assert(new.drop_last() =~= ms.drop_last());
    } else {
        assert(new.drop_last() =~= ms.drop_last().update(i, m));
        lemma_shares_update(amount, ms.drop_last(), i, m, released);
    }
}

proof fn lemma_shares_by_flags(amount: int, a: Seq<MilestoneModel>, b: Seq<MilestoneModel>)
    requires
        a.len() == b.len(),
        forall|i: int|
            0 <= i < a.len() ==> (#[trigger] a[i]).released == b[i].released && a[i].percentage
                == b[i].percentage,
    ensures
        shares(amount, a, true) == shares(amount, b, true),
    decreases a.len(),
{
    if a.len() > 0 {
        assert(a.last() == a[a.len() - 1] && b.last() == b[b.len() - 1]);
        assert forall|i: int| 0 <= i < a.drop_last().len() implies (
        #[trigger] a.drop_last()[i]).released == b.drop_last()[i].released
            && a.drop_last()[i].percentage == b.drop_last()[i].percentage by {
            assert(a.drop_last()[i] == a[i]);
        }
        lemma_shares_by_flags(amount, a.drop_last(), b.drop_last());
    }
}

proof fn lemma_settled_shares(amount: int, ms: Seq<MilestoneModel>)
    ensures
        shares(amount, transitions::all_settled(ms), true) == shares(amount, ms, true) + shares(
            amount,
            ms,
            false,
        ),
    decreases ms.len(),
{
    let settled = transitions::all_settled(ms);
    if ms.len() > 0 {
        assert(settled.drop_last() =~= transitions::all_settled(ms.drop_last()));
        lemma_settled_shares(amount, ms.drop_last());
    }
}

/// The amount of a token movement, where there is one.
pub open spec fn moved(transfer: Option<TokenTransfer>) -> int {
    match transfer {
        Some(t) => t.amount as int,
        None => 0,
    }
}

/// Every call about an existing job, other than an amendment or a refund, moves exactly the shares
/// of the milestones that it releases, of the job's own token, out of the contract and to one of
/// the two parties. (A disputed milestone that is already released would be paid again; no call
/// brings one about, only a list of milestones that starts out that way.)
pub proof fn law_payments_match_released_shares(s: EscrowModel, call: EscrowCall)
    requires
        calls::outcome(s, call) is Ok,
        calls::subject(call) is Some,
        call !is CreateJob && call !is AmendJobMilestones && call !is RefundExpiredJob,
        s.jobs[calls::subject(call)->0].amount > 0,
        call matches EscrowCall::ResolveMilestoneDispute { job_id, index, .. }
            ==> !s.jobs[job_id].milestones[index as int].released,
    ensures
        ({
            let (next, receipt) = calls::outcome(s, call)->Ok_0;
            let job = s.jobs[calls::subject(call)->0];
            let after = next.jobs[calls::subject(call)->0];
            &&& moved(receipt.transfer) == shares(job.amount as int, after.milestones, true)
                - shares(job.amount as int, job.milestones, true)
            &&& receipt.transfer matches Some(t) ==> t.token == job.token && (t.to == job.freelancer
                || t.to == job.client)
        }),
{
    let (next, receipt) = calls::outcome(s, call)->Ok_0;
    let id = calls::subject(call)->0;
    let job = s.jobs[id];
    let after = next.jobs[id];
    let amount = job.amount as int;
    match call {
        EscrowCall::ReleaseMilestone { index, .. } => {
            lemma_paid_share(job, index as int, after.milestones);
        },
        EscrowCall::ClaimMilestone { index, .. } => {
            lemma_paid_share(job, index as int, after.milestones);
        },
        EscrowCall::ResolveMilestoneDispute { index, .. } => {
            lemma_paid_share(job, index as int, after.milestones);
        },
        EscrowCall::ResolveDispute { .. } => {
            lemma_remaining_is_unreleased(amount, job.milestones);
            lemma_settled_shares(amount, job.milestones);
            lemma_shares_bound(amount, job.milestones);
        },
        _ => {
            lemma_shares_by_flags(amount, job.milestones, after.milestones);
        },
    }
}

proof fn lemma_paid_share(job: JobModel, i: int, after: Seq<MilestoneModel>)
    requires
        job.amount > 0,
        0 <= i < job.milestones.len(),
        !job.milestones[i].released,
        after == job.milestones.update(i, after[i]),
        after[i].released,
        after[i].percentage == job.milestones[i].percentage,
        milestones::payout(job.amount as int, job.milestones[i].percentage as int) is Some,
    ensures
        ({
            let paid = milestones::payout(
                job.amount as int,
                job.milestones[i].percentage as int,
            )->0;
            &&& paid == shares(job.amount as int, after, true) - shares(
                job.amount as int,
                job.milestones,
                true,
            )
            &&& paid >= 0
            &&& arithmetic::fits_i128(paid)
        }),
{
    let p = job.milestones[i].percentage as int;
    law_payout_is_the_share(job.amount as int, p);
    lemma_shares_update(job.amount as int, job.milestones, i, after[i], true);
    assert(job.amount * p >= 0) by (nonlinear_arith)
        requires
            job.amount > 0,
            p >= 0,
    ;
}

/// A job whose payments can be told from its milestones: none of them is released and disputed at
/// once.
pub open spec fn accountable(job: JobModel) -> bool {
    forall|i: int|
        0 <= i < job.milestones.len() ==> !((#[trigger] job.milestones[i]).released
            && job.milestones[i].disputed)
}

/// A job that starts out with no milestone released and disputed at once is accountable.
pub proof fn law_new_job_is_accountable(s: EscrowModel, call: EscrowCall)
    requires
        calls::outcome(s, call) is Ok,
        call matches EscrowCall::CreateJob { milestones: ms, .. } && forall|i: int|
            0 <= i < ms.len() ==> !((#[trigger] ms[i]).released && ms[i].disputed),
    ensures
        accountable(calls::outcome(s, call)->Ok_0.0.jobs[calls::subject(call)->0]),
{
}

/// Every call keeps a job accountable.
#[verifier::spinoff_prover]
#[verifier::rlimit(40)]
pub proof fn law_jobs_stay_accountable(s: EscrowModel, call: EscrowCall, job_id: Seq<u8>)
    requires
        calls::outcome(s, call) is Ok,
        s.jobs.contains_key(job_id),
        accountable(s.jobs[job_id]),
    ensures
        accountable(calls::outcome(s, call)->Ok_0.0.jobs[job_id]),
{
    if call is AmendJobMilestones && calls::subject(call) == Some(job_id) {
        laws::law_amendment_preserves_amount(
            s,
            call->AmendJobMilestones_client,
            call->AmendJobMilestones_freelancer,
            job_id,
            call->AmendJobMilestones_milestones,
        );
    }
}

/// The state after a row of calls, of which the refused ones change nothing.
pub open spec fn state_after(s: EscrowModel, row: Seq<EscrowCall>) -> EscrowModel
    decreases row.len(),
{
    if row.len() == 0 {
        s
    } else {
        let before = state_after(s, row.drop_last());
        match calls::outcome(before, row.last()) {
            Ok((next, _)) => next,
            Err(_) => before,
        }
    }
}

/// What a row of calls moves out of the escrow of a job.
pub open spec fn paid_out(s: EscrowModel, row: Seq<EscrowCall>, job_id: Seq<u8>) -> int
    decreases row.len(),
{
    if row.len() == 0 {
        0
    } else {
        let before = state_after(s, row.drop_last());
        paid_out(s, row.drop_last(), job_id) + match calls::outcome(before, row.last()) {
            Ok((_, receipt)) if calls::subject(row.last()) == Some(job_id) => moved(
                receipt.transfer,
            ),
            _ => 0,
        }
    }
}

/// Whether a milestone may still be paid: it is not released, or its dispute is still to be resolved.
pub open spec fn is_due(m: MilestoneModel) -> bool {
    !m.released || m.disputed
}

/// The shares of the milestones of a list that may still be paid.
pub open spec fn due(amount: int, ms: Seq<MilestoneModel>) -> int
    decreases ms.len(),
{
    if ms.len() == 0 {
        0
    } else {
        due(amount, ms.drop_last()) + if is_due(ms.last()) {
            share(amount, ms.last().percentage as int)
        } else {
            0
        }
    }
}

proof fn lemma_due_bound(amount: int, ms: Seq<MilestoneModel>)
    requires
        amount >= 0,
    ensures
        0 <= shares(amount, ms, false) <= due(amount, ms) <= shares(amount, ms, true) + shares(
            amount,
            ms,
            false,
        ),
    decreases ms.len(),
{
    if ms.len() > 0 {
        lemma_due_bound(amount, ms.drop_last());
        let p = ms.last().percentage as int;
        assert(amount * p >= 0) by (nonlinear_arith)
            requires
                amount >= 0,
                p >= 0,
        ;
    }
}

proof fn lemma_due_update(amount: int, ms: Seq<MilestoneModel>, i: int, m: MilestoneModel)
    requires
        0 <= i < ms.len(),
        m.percentage == ms[i].percentage,
        is_due(ms[i]),
        !is_due(m),
    ensures
        due(amount, ms.update(i, m)) == due(amount, ms) - share(amount, ms[i].percentage as int),
    decreases ms.len(),
{
    let new = ms.update(i, m);
    if i == ms.len() - 1 {
        assert(new.drop_last() =~= ms.drop_last());
    } else {
        assert(new.drop_last() =~= ms.drop_last().update(i, m));
        lemma_due_update(amount, ms.drop_last(), i, m);
    }
}

proof fn lemma_due_by_flags(amount: int, a: Seq<MilestoneModel>, b: Seq<MilestoneModel>)
    requires
        a.len() == b.len(),
        forall|i: int|
            0 <= i < a.len() ==> is_due(#[trigger] a[i]) == is_due(b[i]) && a[i].percentage
                == b[i].percentage,
    ensures
        due(amount, a) == due(amount, b),
    decreases a.len(),
{
    if a.len() > 0 {
        assert(a.last() == a[a.len() - 1] && b.last() == b[b.len() - 1]);
        assert forall|i: int| 0 <= i < a.drop_last().len() implies is_due(
            #[trigger] a.drop_last()[i],
        ) == is_due(b.drop_last()[i]) && a.drop_last()[i].percentage
            == b.drop_last()[i].percentage by {
            assert(a.drop_last()[i] == a[i]);
        }
        lemma_due_by_flags(amount, a.drop_last(), b.drop_last());
    }
}

proof fn lemma_nothing_due_when_settled(amount: int, ms: Seq<MilestoneModel>)
    ensures
        due(amount, transitions::all_settled(ms)) == 0,
    decreases ms.len(),
{
    let settled = transitions::all_settled(ms);
    if ms.len() > 0 {
        assert(settled.drop_last() =~= transitions::all_settled(ms.drop_last()));
        lemma_nothing_due_when_settled(amount, ms.drop_last());
    }
}

proof fn lemma_due_share(job: JobModel, i: int, after: Seq<MilestoneModel>)
    requires
        job.amount > 0,
        0 <= i < job.milestones.len(),
        is_due(job.milestones[i]),
        after == job.milestones.update(i, after[i]),
        !is_due(after[i]),
        after[i].percentage == job.milestones[i].percentage,
        milestones::payout(job.amount as int, job.milestones[i].percentage as int) is Some,
    ensures
        ({
            let paid = milestones::payout(
                job.amount as int,
                job.milestones[i].percentage as int,
            )->0;
            &&& paid == due(job.amount as int, job.milestones) - due(job.amount as int, after)
            &&& paid >= 0
            &&& arithmetic::fits_i128(paid)
        }),
{
    let p = job.milestones[i].percentage as int;
    law_payout_is_the_share(job.amount as int, p);
    lemma_due_update(job.amount as int, job.milestones, i, after[i]);
    assert(job.amount * p >= 0) by (nonlinear_arith)
        requires
            job.amount > 0,
            p >= 0,
    ;
}

/// Every call about an existing job, other than an amendment or a refund, moves no more than it
/// takes from what is due.
pub proof fn law_payments_come_from_what_is_due(s: EscrowModel, call: EscrowCall)
    requires
        calls::outcome(s, call) is Ok,
        calls::subject(call) is Some,
        call !is CreateJob && call !is AmendJobMilestones && call !is RefundExpiredJob,
        s.jobs[calls::subject(call)->0].amount > 0,
    ensures
        ({
            let (next, receipt) = calls::outcome(s, call)->Ok_0;
            let job = s.jobs[calls::subject(call)->0];
            let after = next.jobs[calls::subject(call)->0];
            0 <= moved(receipt.transfer) <= due(job.amount as int, job.milestones) - due(
                job.amount as int,
                after.milestones,
            )
        }),
{
    let id = calls::subject(call)->0;
    let job = s.jobs[id];
    let after = calls::outcome(s, call)->Ok_0.0.jobs[id];
    let amount = job.amount as int;
    match call {
        EscrowCall::ReleaseMilestone { index, .. } => {
            lemma_due_share(job, index as int, after.milestones);
        },
        EscrowCall::ClaimMilestone { index, .. } => {
            lemma_due_share(job, index as int, after.milestones);
        },
        EscrowCall::ResolveMilestoneDispute { index, .. } => {
            lemma_due_share(job, index as int, after.milestones);
        },
        EscrowCall::ResolveDispute { .. } => {
            lemma_remaining_is_unreleased(amount, job.milestones);
            lemma_due_bound(amount, job.milestones);
            lemma_nothing_due_when_settled(amount, job.milestones);
        },
        _ => {
            lemma_due_by_flags(amount, job.milestones, after.milestones);
        },
    }
}

/// Over any row of calls, refunds included, no more leaves the escrow of a job than its amount, and
/// what has left leaves room for what is still due. As long as no milestone is released, nothing has
/// left.
pub proof fn law_payments_never_exceed_the_amount(
    s: EscrowModel,
    row: Seq<EscrowCall>,
    job_id: Seq<u8>,
)
    requires
        laws::well_formed(s),
        s.jobs.contains_key(job_id),
    ensures
        ({
            let end = state_after(s, row);
            let amount = s.jobs[job_id].amount as int;
            &&& 0 <= paid_out(s, row, job_id) <= amount - due(amount, end.jobs[job_id].milestones)
            &&& due(amount, end.jobs[job_id].milestones) >= 0
            &&& paid_out(s, row, job_id) > 0 ==> milestones::any_released(
                end.jobs[job_id].milestones,
            )
            &&& laws::well_formed(end)
            &&& end.jobs.contains_key(job_id)
            &&& end.jobs[job_id].amount == amount
        }),
    decreases row.len(),
{
    let end = state_after(s, row);
    if row.len() > 0 {
        let rest = row.drop_last();
        let call = row.last();
        law_payments_never_exceed_the_amount(s, rest, job_id);
        let before = state_after(s, rest);
        if calls::outcome(before, call) is Ok {
            laws::law_every_call_keeps_state_well_formed(before, call);
            laws::law_terms_of_a_job_never_change(before, call, job_id);
            if calls::subject(call) == Some(job_id) {
                lemma_due_payment(before, call, job_id);
            } else {
                laws::law_other_jobs_are_untouched(before, call, job_id);
            }
        }
    }
    lemma_due_bound(end.jobs[job_id].amount as int, end.jobs[job_id].milestones);
    law_no_over_release(job_id, end.jobs[job_id]);
}

/// A call about a job either pays out of what is due, or replaces the milestones or refunds the
/// amount before anything is released.
proof fn lemma_due_payment(s: EscrowModel, call: EscrowCall, job_id: Seq<u8>)
    requires
        calls::outcome(s, call) is Ok,
        calls::subject(call) == Some(job_id),
        s.jobs.contains_key(job_id),
        laws::job_well_formed(job_id, s.jobs[job_id]),
    ensures
        ({
            let (next, receipt) = calls::outcome(s, call)->Ok_0;
            let (job, after) = (s.jobs[job_id], next.jobs[job_id]);
            let paid = moved(receipt.transfer);
            let left = due(job.amount as int, after.milestones);
            &&& milestones::any_released(job.milestones) || paid > 0 ==> milestones::any_released(
                after.milestones,
            )
            &&& ({
                ||| 0 <= paid <= due(job.amount as int, job.milestones) - left
                ||| paid == 0 && !milestones::any_released(job.milestones)
                ||| paid == job.amount && left == 0 && !milestones::any_released(job.milestones)
            })
        }),
{
    let (next, receipt) = calls::outcome(s, call)->Ok_0;
    let (job, after) = (s.jobs[job_id], next.jobs[job_id]);
    match call {
        EscrowCall::CreateJob { .. } => {
            laws::law_job_ids_are_not_reused(s, call);
        },
        EscrowCall::AmendJobMilestones { .. } => {},
        EscrowCall::RefundExpiredJob { .. } => {
            lemma_nothing_due_when_settled(job.amount as int, job.milestones);
            assert(after.milestones[0].released);
        },
        _ => {
            law_payments_come_from_what_is_due(s, call);
            lemma_payment_releases(s, call, job_id);
        },
    }
}

proof fn lemma_payment_releases(s: EscrowModel, call: EscrowCall, job_id: Seq<u8>)
    requires
        calls::outcome(s, call) is Ok,
        calls::subject(call) == Some(job_id),
        s.jobs.contains_key(job_id),
        laws::job_well_formed(job_id, s.jobs[job_id]),
        call !is CreateJob && call !is AmendJobMilestones,
    ensures
        ({
            let (next, receipt) = calls::outcome(s, call)->Ok_0;
            milestones::any_released(s.jobs[job_id].milestones) || moved(receipt.transfer) > 0
                ==> milestones::any_released(next.jobs[job_id].milestones)
        }),
{
    let (next, receipt) = calls::outcome(s, call)->Ok_0;
    let (before, after) = (s.jobs[job_id].milestones, next.jobs[job_id].milestones);
    if milestones::any_released(before) {
        let i = choose|i: int| 0 <= i < before.len() && (#[trigger] before[i]).released;
        laws::law_released_stays_released(s, call, job_id, i);
        laws::law_terms_of_a_job_never_change(s, call, job_id);
        assert(after[i].released);
    } else {
        match call {
            EscrowCall::ReleaseMilestone { index, .. } => {
                assert(after[index as int].released);
            },
            EscrowCall::ClaimMilestone { index, .. } => {
                assert(after[index as int].released);
            },
            EscrowCall::ResolveMilestoneDispute { index, .. } => {
                assert(after[index as int].released);
            },
            EscrowCall::ResolveDispute { .. } => {
                assert(after[0].released);
            },
            EscrowCall::RefundExpiredJob { .. } => {
                assert(after[0].released);
            },
            _ => {},
        }
    }
}

/// A job with nothing left to be paid: every milestone is released and none disputed.
pub open spec fn is_settled(job: JobModel) -> bool {
    milestones::all_released(job.milestones) && !milestones::any_disputed(job.milestones)
}

/// Once a job is settled, as it is by a refund or by the resolution of its dispute, no row of calls
/// moves anything out of its escrow, and it stays settled.
pub proof fn law_settled_job_pays_nothing_more(
    s: EscrowModel,
    row: Seq<EscrowCall>,
    job_id: Seq<u8>,
)
    requires
        laws::well_formed(s),
        s.jobs.contains_key(job_id),
        is_settled(s.jobs[job_id]),
    ensures
        paid_out(s, row, job_id) == 0,
        laws::well_formed(state_after(s, row)),
        state_after(s, row).jobs.contains_key(job_id),
        is_settled(state_after(s, row).jobs[job_id]),
    decreases row.len(),
{
    if row.len() > 0 {
        let rest = row.drop_last();
        let call = row.last();
        law_settled_job_pays_nothing_more(s, rest, job_id);
        let before = state_after(s, rest);
        if calls::outcome(before, call) is Ok {
            laws::law_every_call_keeps_state_well_formed(before, call);
            if calls::subject(call) == Some(job_id) {
                lemma_settled_job_stays_settled(before, call, job_id);
            } else {
                laws::law_other_jobs_are_untouched(before, call, job_id);
            }
        }
    }
}

proof fn lemma_settled_job_stays_settled(s: EscrowModel, call: EscrowCall, job_id: Seq<u8>)
    requires
        calls::outcome(s, call) is Ok,
        calls::subject(call) == Some(job_id),
        s.jobs.contains_key(job_id),
        laws::job_well_formed(job_id, s.jobs[job_id]),
        is_settled(s.jobs[job_id]),
    ensures
        calls::outcome(s, call)->Ok_0.0.jobs.contains_key(job_id),
        is_settled(calls::outcome(s, call)->Ok_0.0.jobs[job_id]),
        moved(calls::outcome(s, call)->Ok_0.1.transfer) == 0,
{
    let job = s.jobs[job_id];
    let after = calls::outcome(s, call)->Ok_0.0.jobs[job_id];
    assert(job.milestones[0].released);
    match call {
        EscrowCall::ResolveDispute { .. } => {
            lemma_nothing_unreleased(job.amount as int, job.milestones);
            lemma_remaining_is_unreleased(job.amount as int, job.milestones);
        },
        EscrowCall::DisputeJob { .. } => {
            assert(after.milestones =~= job.milestones);
        },
        _ => {},
    }
}

proof fn lemma_nothing_unreleased(amount: int, ms: Seq<MilestoneModel>)
    requires
        milestones::all_released(ms),
    ensures
        shares(amount, ms, false) == 0,
    decreases ms.len(),
{
    if ms.len() > 0 {
        assert(ms[ms.len() - 1].released);
        assert forall|i: int| 0 <= i < ms.drop_last().len() implies (
        #[trigger] ms.drop_last()[i]).released by {
            assert(ms.drop_last()[i] == ms[i]);
        }
        lemma_nothing_unreleased(amount, ms.drop_last());
    }
}

/// Over any row of calls without a refund of the job, what leaves its escrow is exactly the shares
/// of the milestones released on the way. (A refund is not made up of shares: it gives back the whole
/// amount, with what they lose by rounding.)
pub proof fn law_payments_are_the_released_shares(
    s: EscrowModel,
    row: Seq<EscrowCall>,
    job_id: Seq<u8>,
)
    requires
        laws::well_formed(s),
        s.jobs.contains_key(job_id),
        accountable(s.jobs[job_id]),
        forall|i: int|
            0 <= i < row.len() ==> !((#[trigger] row[i]) is RefundExpiredJob && calls::subject(
                row[i],
            ) == Some(job_id)),
    ensures
        ({
            let end = state_after(s, row);
            let amount = s.jobs[job_id].amount as int;
            &&& paid_out(s, row, job_id) == shares(amount, end.jobs[job_id].milestones, true)
                - shares(amount, s.jobs[job_id].milestones, true)
            &&& laws::well_formed(end)
            &&& end.jobs.contains_key(job_id)
            &&& end.jobs[job_id].amount == amount
            &&& accountable(end.jobs[job_id])
        }),
    decreases row.len(),
{
    if row.len() > 0 {
        let rest = row.drop_last();
        let call = row.last();
        assert forall|i: int| 0 <= i < rest.len() implies !((#[trigger] rest[i]) is RefundExpiredJob
            && calls::subject(rest[i]) == Some(job_id)) by {
            assert(rest[i] == row[i]);
        }
        assert(call == row[row.len() - 1]);
        law_payments_are_the_released_shares(s, rest, job_id);
        let before = state_after(s, rest);
        if calls::outcome(before, call) is Ok {
            laws::law_every_call_keeps_state_well_formed(before, call);
            laws::law_terms_of_a_job_never_change(before, call, job_id);
            law_jobs_stay_accountable(before, call, job_id);
            if calls::subject(call) == Some(job_id) {
                lemma_accountable_payment(before, call, job_id);
            } else {
                laws::law_other_jobs_are_untouched(before, call, job_id);
            }
        }
    }
}

proof fn lemma_accountable_payment(s: EscrowModel, call: EscrowCall, job_id: Seq<u8>)
    requires
        calls::outcome(s, call) is Ok,
        calls::subject(call) == Some(job_id),
        s.jobs.contains_key(job_id),
        s.jobs[job_id].amount > 0,
        accountable(s.jobs[job_id]),
        call !is RefundExpiredJob,
    ensures
        ({
            let (next, receipt) = calls::outcome(s, call)->Ok_0;
            let amount = s.jobs[job_id].amount as int;
            moved(receipt.transfer) == shares(amount, next.jobs[job_id].milestones, true) - shares(
                amount,
                s.jobs[job_id].milestones,
                true,
            )
        }),
{
    match call {
        EscrowCall::CreateJob { .. } => {
            laws::law_job_ids_are_not_reused(s, call);
        },
        EscrowCall::AmendJobMilestones { client, freelancer, milestones: ms, .. } => {
            laws::law_amendment_preserves_amount(s, client, freelancer, job_id, ms);
            lemma_nothing_released(s.jobs[job_id].amount as int, s.jobs[job_id].milestones);
            lemma_nothing_released(s.jobs[job_id].amount as int, ms);
        },
        EscrowCall::ResolveMilestoneDispute { index, .. } => {
            assert(s.jobs[job_id].milestones[index as int].disputed);
            law_payments_match_released_shares(s, call);
        },
        _ => {
            law_payments_match_released_shares(s, call);
        },
    }
}

proof fn lemma_nothing_released(amount: int, ms: Seq<MilestoneModel>)
    requires
        !milestones::any_released(ms),
    ensures
        shares(amount, ms, true) == 0,
    decreases ms.len(),
{
    if ms.len() > 0 {
        assert(!ms[ms.len() - 1].released);
        assert forall|i: int| 0 <= i < ms.drop_last().len() implies !(
        #[trigger] ms.drop_last()[i]).released by {
            assert(ms.drop_last()[i] == ms[i]);
        }
        lemma_nothing_released(amount, ms.drop_last());
    }
}

/// A refund is full: nothing of the job was released, the whole of its amount moves from the contract
/// to the client, in the job's own token, and nothing is left to be paid.
pub proof fn law_refund_is_full(
    s: EscrowModel,
    ctx: CallContext,
    client: crate::address::Address,
    job_id: Seq<u8>,
)
    requires
        s.jobs[job_id].amount > 0,
        transitions::refund_step(s, ctx, client, job_id) is Ok,
    ensures
        ({
            let job = s.jobs[job_id];
            let (next, receipt) = transitions::refund_step(s, ctx, client, job_id)->Ok_0;
            &&& shares(job.amount as int, job.milestones, true) == 0
            &&& receipt.transfer == Some(
                TokenTransfer {
                    token: job.token,
                    from: ctx.contract,
                    to: job.client,
                    amount: job.amount,
                },
            )
            &&& is_settled(next.jobs[job_id])
        }),
{
    lemma_nothing_released(s.jobs[job_id].amount as int, s.jobs[job_id].milestones);
}

/// A job of one milestone is paid out in full, whatever its amount.
pub proof fn law_single_milestone_is_paid_in_full(job_id: Seq<u8>, job: JobModel)
    requires
        laws::job_well_formed(job_id, job),
        job.milestones.len() == 1,
    ensures
        milestones::payout(job.amount as int, job.milestones[0].percentage as int) == Some(
            job.amount as int,
        ),
{
    assert(job.milestones.drop_last() =~= Seq::empty());
    assert(milestones::percentage_sum(job.milestones) == milestones::percentage_sum(
        job.milestones.drop_last(),
    ) + job.milestones.last().percentage);
}

/// A creation moves the whole amount from the client to the contract.
pub proof fn law_creation_funds_the_job(s: EscrowModel, call: EscrowCall)
    requires
        call is CreateJob,
        calls::outcome(s, call) is Ok,
    ensures
        ({
            let (next, receipt) = calls::outcome(s, call)->Ok_0;
            let job = next.jobs[calls::subject(call)->0];
            receipt.transfer == Some(
                TokenTransfer {
                    token: job.token,
                    from: job.client,
                    to: call->CreateJob_ctx.contract,
                    amount: job.amount,
                },
            )
        }),
{
}

} // verus!
