//! Rules on lists of milestones: which lists are valid, where a list stands, and what it pays.

use vstd::prelude::*;

use crate::arithmetic;
use crate::escrow::error::{EscrowError, EscrowFailure, EscrowTrap};
use crate::escrow::types;
use crate::escrow::types::{Job, JobStatus, Milestone, MilestoneModel, MAX_MILESTONE_NAME_LEN};
use crate::table::TableKey;

verus! {

/// What is wrong with a milestone taken by itself.
pub open spec fn milestone_fault(m: MilestoneModel) -> Option<EscrowError> {
    if m.percentage == 0 {
        Some(EscrowError::MilestonePercentageZero)
    } else if m.name.len() > MAX_MILESTONE_NAME_LEN {
        Some(EscrowError::MilestoneNameTooLong)
    } else {
        None
    }
}

/// What is wrong with the first faulty milestone of a list.
pub open spec fn first_fault(ms: Seq<MilestoneModel>) -> Option<EscrowError>
    decreases ms.len(),
{
    if ms.len() == 0 {
        None
    } else {
        match first_fault(ms.drop_last()) {
            Some(e) => Some(e),
            None => milestone_fault(ms.last()),
        }
    }
}

/// No two milestones share a name.
pub open spec fn names_distinct(ms: Seq<MilestoneModel>) -> bool {
    forall|i: int, j: int|
        0 <= i < j < ms.len() ==> (#[trigger] ms[i]).name != (#[trigger] ms[j]).name
}

/// What is wrong with a list of milestones, percentages aside.
pub open spec fn list_fault(ms: Seq<MilestoneModel>) -> Option<EscrowError> {
    if ms.len() == 0 {
        Some(EscrowError::MilestoneVectorEmpty)
    } else if first_fault(ms) is Some {
        first_fault(ms)
    } else if !names_distinct(ms) {
        Some(EscrowError::DuplicateMilestoneName)
    } else {
        None
    }
}

/// The first `n` milestones of a list, one step further.
proof fn lemma_first_fault_step(ms: Seq<MilestoneModel>, n: int)
    requires
        0 <= n < ms.len(),
    ensures
        first_fault(ms.take(n + 1)) == (match first_fault(ms.take(n)) {
            Some(e) => Some(e),
            None => milestone_fault(ms[n]),
        }),
{
    assert(ms.take(n + 1).drop_last() =~= ms.take(n));
}

/// A fault in the first `n` milestones is the fault of the list.
proof fn lemma_first_fault_prefix(ms: Seq<MilestoneModel>, n: int)
    requires
        0 <= n <= ms.len(),
        first_fault(ms.take(n)) is Some,
    ensures
        first_fault(ms) == first_fault(ms.take(n)),
    decreases ms.len() - n,
{
    if n < ms.len() {
        lemma_first_fault_step(ms, n);
        lemma_first_fault_prefix(ms, n + 1);
    } else {
        assert(ms.take(n) =~= ms);
    }
}

/// Checks a list of milestones: it is not empty, every percentage is positive, every name fits
/// `MAX_MILESTONE_NAME_LEN` and no two names are the same. That the percentages add up to 100 is
/// left to the callers.
pub fn validate_milestones(milestones: &Vec<Milestone>) -> (r: Result<(), EscrowError>)
    ensures
        r == (match list_fault(types::milestones_model(milestones@)) {
            Some(e) => Err::<(), EscrowError>(e),
            None => Ok(()),
        }),
{
    let ghost ms = types::milestones_model(milestones@);
    if milestones.len() == 0 {
        return Err(EscrowError::MilestoneVectorEmpty);
    }
    let mut i: usize = 0;
    assert(ms.take(0) =~= Seq::empty());
    while i < milestones.len()
        invariant
            i <= milestones.len(),
            ms == types::milestones_model(milestones@),
            milestones.len() > 0,
            first_fault(ms.take(i as int)) is None,
        decreases milestones.len() - i,
    {
        proof {
            lemma_first_fault_step(ms, i as int);
        }
        if milestones[i].percentage == 0 {
            proof {
                lemma_first_fault_prefix(ms, i + 1);
            }
            return Err(EscrowError::MilestonePercentageZero);
        }
        if milestones[i].name.len() > MAX_MILESTONE_NAME_LEN as usize {
            proof {
                lemma_first_fault_prefix(ms, i + 1);
            }
            return Err(EscrowError::MilestoneNameTooLong);
        }
        i = i + 1;
    }
    assert(ms.take(i as int) =~= ms);
    let mut a: usize = 0;
    while a < milestones.len()
        invariant
            a <= milestones.len(),
            ms == types::milestones_model(milestones@),
            milestones.len() > 0,
            first_fault(ms) is None,
            forall|x: int, y: int|
                0 <= x < a && x < y < ms.len() ==> (#[trigger] ms[x]).name != (#[trigger]
                ms[y]).name,
        decreases milestones.len() - a,
    {
        let mut b: usize = a + 1;
        while b < milestones.len()
            invariant
                a < b <= milestones.len(),
                ms == types::milestones_model(milestones@),
                milestones.len() > 0,
                first_fault(ms) is None,
                forall|y: int| a < y < b ==> ms[a as int].name != (#[trigger] ms[y]).name,
            decreases milestones.len() - b,
        {
            if milestones[a].name.same_key(&milestones[b].name) {
                assert(ms[a as int].name == ms[b as int].name);
                return Err(EscrowError::DuplicateMilestoneName);
            }
            b = b + 1;
        }
        a = a + 1;
    }
    Ok(())
}

/// The sum of the percentages of a list of milestones.
pub open spec fn percentage_sum(ms: Seq<MilestoneModel>) -> int
    decreases ms.len(),
{
    if ms.len() == 0 {
        0
    } else {
        percentage_sum(ms.drop_last()) + ms.last().percentage
    }
}

proof fn lemma_percentage_sum_step(ms: Seq<MilestoneModel>, n: int)
    requires
        0 <= n < ms.len(),
    ensures
        percentage_sum(ms.take(n + 1)) == percentage_sum(ms.take(n)) + ms[n].percentage,
{
    assert(ms.take(n + 1).drop_last() =~= ms.take(n));
}

/// A prefix adds up to no more than the list.
pub proof fn lemma_percentage_sum_prefix(ms: Seq<MilestoneModel>, n: int)
    requires
        0 <= n <= ms.len(),
    ensures
        0 <= percentage_sum(ms.take(n)) <= percentage_sum(ms),
    decreases ms.len(), ms.len() - n,
{
    if n < ms.len() {
        lemma_percentage_sum_step(ms, n);
        lemma_percentage_sum_prefix(ms, n + 1);
        lemma_percentage_sum_nonnegative(ms.take(n));
    } else {
        assert(ms.take(n) =~= ms);
        lemma_percentage_sum_nonnegative(ms);
    }
}

proof fn lemma_percentage_sum_nonnegative(ms: Seq<MilestoneModel>)
    ensures
        0 <= percentage_sum(ms),
    decreases ms.len(),
{
    if ms.len() > 0 {
        lemma_percentage_sum_nonnegative(ms.drop_last());
    }
}

/// Why a list of percentages is refused.
pub open spec fn percentage_refusal(ms: Seq<MilestoneModel>) -> Option<EscrowFailure> {
    if percentage_sum(ms) > u32::MAX {
        Some(EscrowFailure::Trap(EscrowTrap::MilestonePercentageOverflow))
    } else if percentage_sum(ms) != 100 {
        Some(EscrowFailure::Error(EscrowError::MilestonesMustSumTo100))
    } else {
        None
    }
}

/// Checks that the percentages add up to 100.
pub fn check_percentages(milestones: &Vec<Milestone>) -> (r: Result<(), EscrowFailure>)
    ensures
        r == (match percentage_refusal(types::milestones_model(milestones@)) {
            Some(e) => Err::<(), EscrowFailure>(e),
            None => Ok(()),
        }),
{
    let ghost ms = types::milestones_model(milestones@);
    let mut total: u32 = 0;
    let mut i: usize = 0;
    assert(ms.take(0) =~= Seq::empty());
    while i < milestones.len()
        invariant
            i <= milestones.len(),
            ms == types::milestones_model(milestones@),
            total == percentage_sum(ms.take(i as int)),
        decreases milestones.len() - i,
    {
        proof {
            lemma_percentage_sum_step(ms, i as int);
        }
        match total.checked_add(milestones[i].percentage) {
            Some(t) => {
                total = t;
            },
            None => {
                proof {
                    lemma_percentage_sum_prefix(ms, i + 1);
                }
                return Err(EscrowFailure::Trap(EscrowTrap::MilestonePercentageOverflow));
            },
        }
        i = i + 1;
    }
    assert(ms.take(i as int) =~= ms);
    if total != 100 {
        return Err(EscrowFailure::Error(EscrowError::MilestonesMustSumTo100));
    }
    Ok(())
}

/// Some milestone is marked released or disputed, and the percentages before it do not overflow.
pub open spec fn flagged_before_overflow(ms: Seq<MilestoneModel>) -> bool {
    exists|i: int|
        0 <= i < ms.len() && ((#[trigger] ms[i]).released || ms[i].disputed) && percentage_sum(
            ms.take(i),
        ) <= u32::MAX
}

/// Why a list of milestones is refused in the place of another: a milestone that is marked
/// released or disputed goes before a sum of percentages that overflows only later.
pub open spec fn amendment_refusal(ms: Seq<MilestoneModel>) -> Option<EscrowFailure> {
    if flagged_before_overflow(ms) {
        Some(EscrowFailure::Error(EscrowError::NewMilestonesMustNotBeReleasedOrDisputed))
    } else {
        percentage_refusal(ms)
    }
}

/// Checks that no milestone is marked released or disputed and that the percentages add up to 100.
pub fn check_amendment(milestones: &Vec<Milestone>) -> (r: Result<(), EscrowFailure>)
    ensures
        r == (match amendment_refusal(types::milestones_model(milestones@)) {
            Some(e) => Err::<(), EscrowFailure>(e),
            None => Ok(()),
        }),
{
    let ghost ms = types::milestones_model(milestones@);
    let mut total: u32 = 0;
    let mut i: usize = 0;
    assert(ms.take(0) =~= Seq::empty());
    while i < milestones.len()
        invariant
            i <= milestones.len(),
            ms == types::milestones_model(milestones@),
            total == percentage_sum(ms.take(i as int)),
            forall|j: int| 0 <= j < i ==> !(#[trigger] ms[j]).released && !ms[j].disputed,
        decreases milestones.len() - i,
    {
        if milestones[i].released || milestones[i].disputed {
            assert(ms[i as int].released || ms[i as int].disputed);
            return Err(EscrowFailure::Error(EscrowError::NewMilestonesMustNotBeReleasedOrDisputed));
        }
        proof {
            lemma_percentage_sum_step(ms, i as int);
        }
        match total.checked_add(milestones[i].percentage) {
            Some(t) => {
                total = t;
            },
            None => {
                proof {
                    lemma_percentage_sum_prefix(ms, i + 1);
                    assert forall|j: int| 0 <= j < ms.len() && ((#[trigger] ms[j]).released
                        || ms[j].disputed) implies percentage_sum(ms.take(j)) > u32::MAX by {
                        lemma_percentage_sum_prefix(ms.take(j), i + 1);
                        assert(ms.take(j).take(i + 1) =~= ms.take(i + 1));
                    }
                }
                return Err(EscrowFailure::Trap(EscrowTrap::MilestonePercentageOverflow));
            },
        }
        i = i + 1;
    }
    assert(ms.take(i as int) =~= ms);
    if total != 100 {
        return Err(EscrowFailure::Error(EscrowError::MilestonesMustSumTo100));
    }
    Ok(())
}

/// Every milestone is released.
pub open spec fn all_released(ms: Seq<MilestoneModel>) -> bool {
    forall|i: int| 0 <= i < ms.len() ==> (#[trigger] ms[i]).released
}

/// Some milestone is released.
pub open spec fn any_released(ms: Seq<MilestoneModel>) -> bool {
    exists|i: int| 0 <= i < ms.len() && (#[trigger] ms[i]).released
}

/// Some milestone is disputed.
pub open spec fn any_disputed(ms: Seq<MilestoneModel>) -> bool {
    exists|i: int| 0 <= i < ms.len() && (#[trigger] ms[i]).disputed
}

/// Where a job stands, by its milestones, once payments have begun.
pub open spec fn status_by_milestones(ms: Seq<MilestoneModel>) -> JobStatus {
    if all_released(ms) {
        JobStatus::Completed
    } else if any_disputed(ms) {
        JobStatus::Disputed
    } else {
        JobStatus::PartiallyReleased
    }
}

/// Whether some milestone is released.
pub fn has_released(milestones: &Vec<Milestone>) -> (r: bool)
    ensures
        r == any_released(types::milestones_model(milestones@)),
{
    let ghost ms = types::milestones_model(milestones@);
    let mut i: usize = 0;
    while i < milestones.len()
        invariant
            i <= milestones.len(),
            ms == types::milestones_model(milestones@),
            forall|j: int| 0 <= j < i ==> !(#[trigger] ms[j]).released,
        decreases milestones.len() - i,
    {
        if milestones[i].released {
            assert(ms[i as int].released);
            return true;
        }
        i = i + 1;
    }
    false
}

/// Whether some milestone is disputed.
pub fn has_disputed(milestones: &Vec<Milestone>) -> (r: bool)
    ensures
        r == any_disputed(types::milestones_model(milestones@)),
{
    let ghost ms = types::milestones_model(milestones@);
    let mut i: usize = 0;
    while i < milestones.len()
        invariant
            i <= milestones.len(),
            ms == types::milestones_model(milestones@),
            forall|j: int| 0 <= j < i ==> !(#[trigger] ms[j]).disputed,
        decreases milestones.len() - i,
    {
        if milestones[i].disputed {
            assert(ms[i as int].disputed);
            return true;
        }
        i = i + 1;
    }
    false
}

/// The status of a job with these milestones, once payments have begun.
pub fn status_of(milestones: &Vec<Milestone>) -> (r: JobStatus)
    ensures
        r == status_by_milestones(types::milestones_model(milestones@)),
{
    let ghost ms = types::milestones_model(milestones@);
    let mut i: usize = 0;
    while i < milestones.len()
        invariant
            i <= milestones.len(),
            ms == types::milestones_model(milestones@),
            forall|j: int| 0 <= j < i ==> (#[trigger] ms[j]).released,
        decreases milestones.len() - i,
    {
        if !milestones[i].released {
            assert(!ms[i as int].released);
            return if has_disputed(milestones) {
                JobStatus::Disputed
            } else {
                JobStatus::PartiallyReleased
            };
        }
        i = i + 1;
    }
    JobStatus::Completed
}

/// A hundredth of a number, rounded toward zero.
pub open spec fn hundredth(n: int) -> int {
    if n >= 0 {
        n / 100
    } else {
        -((-n) / 100)
    }
}

/// What a share of an amount comes to. The whole is always payable; a part is only where the
/// product of amount and percentage fits an `i128`.
pub open spec fn payout(amount: int, percentage: int) -> Option<int> {
    if percentage == 100 {
        Some(amount)
    } else if arithmetic::fits_i128(amount * percentage) {
        Some(hundredth(amount * percentage))
    } else {
        None
    }
}

/// Computes `amount * proportion / 100`, or fails with `err` where that overflows.
pub fn compute_proportional_payout(amount: i128, proportion: i128, err: EscrowError) -> (r: Result<
    i128,
    EscrowError,
>)
    ensures
        match payout(amount as int, proportion as int) {
            Some(p) => r == Ok::<i128, EscrowError>(p as i128) && arithmetic::fits_i128(p),
            None => r == Err::<i128, EscrowError>(err),
        },
{
    if proportion == 100 {
        return Ok(amount);
    }
    match amount.checked_mul(proportion) {
        Some(product) => match product.checked_div(100i128) {
            Some(p) => Ok(p),
            None => Err(err),
        },
        None => Err(err),
    }
}

/// What the unreleased milestones of a list come to, for a job over `amount`.
pub open spec fn remaining_funds(amount: int, ms: Seq<MilestoneModel>) -> Option<int>
    decreases ms.len(),
{
    if ms.len() == 0 {
        Some(0)
    } else {
        match (remaining_funds(amount, ms.drop_last()), payout(amount, ms.last().percentage as int))
        {
            (Some(sum), _) if ms.last().released => Some(sum),
            (Some(sum), Some(p)) => if arithmetic::fits_i128(sum + p) {
                Some(sum + p)
            } else {
                None
            },
            _ => None,
        }
    }
}

proof fn lemma_remaining_funds_prefix(amount: int, ms: Seq<MilestoneModel>, n: int)
    requires
        0 <= n <= ms.len(),
        remaining_funds(amount, ms.take(n)) is None,
    ensures
        remaining_funds(amount, ms) is None,
    decreases ms.len() - n,
{
    if n < ms.len() {
        assert(ms.take(n + 1).drop_last() =~= ms.take(n));
        lemma_remaining_funds_prefix(amount, ms, n + 1);
    } else {
        assert(ms.take(n) =~= ms);
    }
}

/// Adds up what the unreleased milestones of a job come to, or fails with `err` where that
/// overflows.
pub fn compute_remaining_funds(job: &Job, err: EscrowError) -> (r: Result<i128, EscrowError>)
    ensures
        match remaining_funds(job.amount as int, types::milestones_model(job.milestones@)) {
            Some(sum) => r == Ok::<i128, EscrowError>(sum as i128) && arithmetic::fits_i128(sum),
            None => r == Err::<i128, EscrowError>(err),
        },
{
    let ghost ms = types::milestones_model(job.milestones@);
    let ghost amount = job.amount as int;
    let mut remaining: i128 = 0;
    let mut i: usize = 0;
    assert(ms.take(0) =~= Seq::empty());
    while i < job.milestones.len()
        invariant
            i <= job.milestones.len(),
            ms == types::milestones_model(job.milestones@),
            amount == job.amount,
            remaining_funds(amount, ms.take(i as int)) == Some(remaining as int),
        decreases job.milestones.len() - i,
    {
        assert(ms.take(i + 1).drop_last() =~= ms.take(i as int));
        if !job.milestones[i].released {
            let proportion: i128 = job.milestones[i].percentage as i128;
            match compute_proportional_payout(job.amount, proportion, err) {
                Ok(p) => match remaining.checked_add(p) {
                    Some(sum) => {
                        remaining = sum;
                    },
                    None => {
                        proof {
                            lemma_remaining_funds_prefix(amount, ms, i + 1);
                        }
                        return Err(err);
                    },
                },
                Err(e) => {
                    proof {
                        lemma_remaining_funds_prefix(amount, ms, i + 1);
                    }
                    return Err(e);
                },
            }
        }
        i = i + 1;
    }
    assert(ms.take(i as int) =~= ms);
    Ok(remaining)
}

} // verus!
