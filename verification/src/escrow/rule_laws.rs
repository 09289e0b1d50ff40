//! What the rules behind the calls on the escrow contract mean: which lists of milestones are valid,
//! what a share comes to, and who counts as an approver.

use vstd::prelude::*;

use crate::address::Address;
use crate::escrow::admin;
use crate::escrow::error::{EscrowError, EscrowFailure, EscrowTrap};
use crate::escrow::milestones;
use crate::escrow::state::EscrowModel;
use crate::escrow::transitions;
use crate::escrow::types::{
    FreelancerReputation, JobStatus, MilestoneModel, DEFAULT_DEADLINE_LEDGERS,
    MAX_MILESTONE_NAME_LEN, RELEASE_AFTER_LEDGERS,
};

verus! {

/// The limits of jobs: 10 ledgers of release period at the least, a deadline after 1,555,200 ledgers,
/// and names of 64 bytes at the most.
pub proof fn law_limits_of_jobs()
    ensures
        RELEASE_AFTER_LEDGERS == 10,
        DEFAULT_DEADLINE_LEDGERS == 1_555_200,
        MAX_MILESTONE_NAME_LEN == 64,
{
}

/// A milestone that is in order by itself: it has a share and a name that is not too long.
pub open spec fn in_order(m: MilestoneModel) -> bool {
    m.percentage > 0 && m.name.len() <= 64
}

/// A list of milestones is valid if and only if it is not empty, each milestone is in order, and no
/// two names are the same.
pub proof fn law_which_lists_are_valid(ms: Seq<MilestoneModel>)
    ensures
        milestones::list_fault(ms) is None <==> ms.len() > 0 && (forall|k: int|
            0 <= k < ms.len() ==> in_order(#[trigger] ms[k])) && (forall|i: int, j: int|
            0 <= i < ms.len() && 0 <= j < ms.len() && i != j ==> (#[trigger] ms[i]).name != (
            #[trigger] ms[j]).name),
{
    lemma_first_fault_none(ms);
    if milestones::names_distinct(ms) {
        assert forall|i: int, j: int|
            0 <= i < ms.len() && 0 <= j < ms.len() && i != j implies (#[trigger] ms[i]).name != (
        #[trigger] ms[j]).name by {
            if i < j {
                assert(ms[i].name != ms[j].name);
            } else {
                assert(ms[j].name != ms[i].name);
            }
        }
    }
}

proof fn lemma_first_fault_none(ms: Seq<MilestoneModel>)
    ensures
        milestones::first_fault(ms) is None <==> forall|k: int|
            0 <= k < ms.len() ==> in_order(#[trigger] ms[k]),
    decreases ms.len(),
{
    if ms.len() > 0 {
        let rest = ms.drop_last();
        lemma_first_fault_none(rest);
        assert(ms.last() == ms[ms.len() - 1]);
        if milestones::first_fault(ms) is None {
            assert forall|k: int| 0 <= k < ms.len() implies in_order(#[trigger] ms[k]) by {
                if k < rest.len() {
                    assert(in_order(rest[k]));
                }
            }
        }
        if forall|k: int| 0 <= k < ms.len() ==> in_order(#[trigger] ms[k]) {
            assert forall|k: int| 0 <= k < rest.len() implies in_order(#[trigger] rest[k]) by {
                assert(in_order(ms[k]));
            }
        }
    }
}

/// What is wrong with a list is said of the first milestone that is not in order: that it has no
/// share, or else that its name is too long. Only then are names compared.
pub proof fn law_what_is_wrong_with_a_list(ms: Seq<MilestoneModel>, k: int)
    ensures
        ms.len() == 0 ==> milestones::list_fault(ms) == Some(EscrowError::MilestoneVectorEmpty),
        0 <= k < ms.len() && !in_order(ms[k]) && (forall|j: int|
            0 <= j < k ==> in_order(#[trigger] ms[j])) ==> milestones::list_fault(ms) == Some(
            if ms[k].percentage == 0 {
                EscrowError::MilestonePercentageZero
            } else {
                EscrowError::MilestoneNameTooLong
            },
        ),
        ms.len() > 0 && (forall|j: int| 0 <= j < ms.len() ==> in_order(#[trigger] ms[j])) && (
        exists|i: int, j: int|
            0 <= i < j < ms.len() && (#[trigger] ms[i]).name == (#[trigger] ms[j]).name)
            ==> milestones::list_fault(ms) == Some(EscrowError::DuplicateMilestoneName),
{
    lemma_first_fault_none(ms);
    if 0 <= k < ms.len() && !in_order(ms[k]) && (forall|j: int|
        0 <= j < k ==> in_order(#[trigger] ms[j])) {
        lemma_first_fault_at(ms, k);
    }
}

proof fn lemma_first_fault_at(ms: Seq<MilestoneModel>, k: int)
    requires
        0 <= k < ms.len(),
        !in_order(ms[k]),
        forall|j: int| 0 <= j < k ==> in_order(#[trigger] ms[j]),
    ensures
        milestones::first_fault(ms) == Some(
            if ms[k].percentage == 0 {
                EscrowError::MilestonePercentageZero
            } else {
                EscrowError::MilestoneNameTooLong
            },
        ),
    decreases ms.len(),
{
    let rest = ms.drop_last();
    if k < rest.len() {
        assert(rest[k] == ms[k]);
        assert forall|j: int| 0 <= j < k implies in_order(#[trigger] rest[j]) by {
            assert(rest[j] == ms[j]);
        }
        lemma_first_fault_at(rest, k);
    } else {
        lemma_first_fault_none(rest);
        assert forall|j: int| 0 <= j < rest.len() implies in_order(#[trigger] rest[j]) by {
            assert(rest[j] == ms[j]);
        }
    }
}

/// Percentages are added up one by one.
pub proof fn law_percentages_add_up(ms: Seq<MilestoneModel>, m: MilestoneModel)
    ensures
        milestones::percentage_sum(Seq::empty()) == 0,
        milestones::percentage_sum(ms.push(m)) == milestones::percentage_sum(ms) + m.percentage,
{
    assert(ms.push(m).drop_last() =~= ms);
}

/// Percentages are accepted if and only if they add up to a hundred. A sum that does not fit aborts
/// the call.
pub proof fn law_which_percentages_are_accepted(ms: Seq<MilestoneModel>)
    ensures
        ({
            let sum = milestones::percentage_sum(ms);
            &&& sum == 100 <==> milestones::percentage_refusal(ms) is None
            &&& sum > u32::MAX ==> milestones::percentage_refusal(ms) == Some(
                EscrowFailure::Trap(EscrowTrap::MilestonePercentageOverflow),
            )
            &&& sum <= u32::MAX && sum != 100 ==> milestones::percentage_refusal(ms) == Some(
                EscrowFailure::Error(EscrowError::MilestonesMustSumTo100),
            )
        }),
{
}

/// New milestones are accepted in the place of others if and only if none of them is released or
/// disputed and their percentages add up to a hundred. A mark is found before the sum is judged, as
/// long as the sum up to it fits.
pub proof fn law_which_amendments_are_accepted(ms: Seq<MilestoneModel>)
    ensures
        ({
            let refusal = milestones::amendment_refusal(ms);
            let sum = milestones::percentage_sum(ms);
            let clean = forall|k: int|
                0 <= k < ms.len() ==> !(#[trigger] ms[k]).released && !ms[k].disputed;
            &&& refusal is None <==> clean && sum == 100
            &&& !clean && sum <= u32::MAX ==> refusal == Some(
                EscrowFailure::Error(EscrowError::NewMilestonesMustNotBeReleasedOrDisputed),
            )
            &&& clean && sum > u32::MAX ==> refusal == Some(
                EscrowFailure::Trap(EscrowTrap::MilestonePercentageOverflow),
            )
            &&& clean && sum <= u32::MAX && sum != 100 ==> refusal == Some(
                EscrowFailure::Error(EscrowError::MilestonesMustSumTo100),
            )
        }),
{
    if exists|k: int|
        0 <= k < ms.len() && ((#[trigger] ms[k]).released || ms[k].disputed) {
        let k = choose|k: int|
            0 <= k < ms.len() && ((#[trigger] ms[k]).released || ms[k].disputed);
        milestones::lemma_percentage_sum_prefix(ms, k);
    }
}

/// Where the sum of percentages does not fit, a mark counts if the sum of those before it fits.
pub proof fn law_marks_before_an_overflow(ms: Seq<MilestoneModel>)
    requires
        milestones::percentage_sum(ms) > u32::MAX,
    ensures
        (exists|k: int|
            0 <= k < ms.len() && ((#[trigger] ms[k]).released || ms[k].disputed)
                && milestones::percentage_sum(ms.take(k)) <= u32::MAX)
            ==> milestones::amendment_refusal(ms) == Some(
            EscrowFailure::Error(EscrowError::NewMilestonesMustNotBeReleasedOrDisputed),
        ),
        (forall|k: int|
            0 <= k < ms.len() && ((#[trigger] ms[k]).released || ms[k].disputed)
                ==> milestones::percentage_sum(ms.take(k)) > u32::MAX)
            ==> milestones::amendment_refusal(ms) == Some(
            EscrowFailure::Trap(EscrowTrap::MilestonePercentageOverflow),
        ),
{
}

/// The marks of a list are those of its milestones, and the status of a paid job follows from them:
/// completed when all are released, else disputed when one is, else partially released.
pub proof fn law_what_marks_say(ms: Seq<MilestoneModel>, k: int)
    requires
        0 <= k < ms.len(),
    ensures
        ms[k].released ==> milestones::any_released(ms),
        ms[k].disputed ==> milestones::any_disputed(ms),
        (forall|j: int| 0 <= j < ms.len() ==> !(#[trigger] ms[j]).released)
            ==> !milestones::any_released(ms),
        (forall|j: int| 0 <= j < ms.len() ==> !(#[trigger] ms[j]).disputed)
            ==> !milestones::any_disputed(ms),
        (forall|j: int| 0 <= j < ms.len() ==> (#[trigger] ms[j]).released)
            ==> milestones::status_by_milestones(ms) == JobStatus::Completed,
        !ms[k].released ==> milestones::status_by_milestones(ms) != JobStatus::Completed,
        !ms[k].released && (exists|j: int| 0 <= j < ms.len() && (#[trigger] ms[j]).disputed)
            ==> milestones::status_by_milestones(ms) == JobStatus::Disputed,
        !ms[k].released && (forall|j: int| 0 <= j < ms.len() ==> !(#[trigger] ms[j]).disputed)
            ==> milestones::status_by_milestones(ms) == JobStatus::PartiallyReleased,
{
}

/// A share is that many hundredths of the amount, rounded toward zero. The whole is the amount itself;
/// a part can be computed if and only if its product with the amount fits.
pub proof fn law_what_a_share_comes_to(amount: int, percentage: int)
    ensures
        milestones::payout(amount, 100) == Some(amount),
        percentage != 100 ==> (milestones::payout(amount, percentage) is Some <==> i128::MIN
            <= amount * percentage <= i128::MAX),
        milestones::payout(amount, percentage) matches Some(p) ==> {
            let product = amount * percentage;
            &&& product >= 0 ==> p * 100 <= product < p * 100 + 100
            &&& product <= 0 ==> p * 100 - 100 < product <= p * 100
        },
{
}

/// Milestones are added up one by one to what remains: a released one adds nothing, another adds its
/// share, and a sum that does not fit is none.
pub proof fn law_what_remains_is_added_up(amount: int, ms: Seq<MilestoneModel>, m: MilestoneModel)
    ensures
        ({
            let before = milestones::remaining_funds(amount, ms);
            let after = milestones::remaining_funds(amount, ms.push(m));
            let own = milestones::payout(amount, m.percentage as int);
            &&& milestones::remaining_funds(amount, Seq::empty()) == Some(0int)
            &&& m.released ==> after == before
            &&& before is None ==> after is None
            &&& !m.released && own is None ==> after is None
            &&& !m.released && own is Some && before is Some ==> if i128::MIN <= before->0 + own->0
                <= i128::MAX {
                after == Some(before->0 + own->0)
            } else {
                after is None
            }
        }),
{
    assert(ms.push(m).drop_last() =~= ms);
}

/// The number of approvers is the length of any list that holds each admin among the signers once and
/// nobody else.
pub proof fn law_who_counts_as_an_approver(
    admins: Seq<Address>,
    signers: Seq<Address>,
    approvers: Seq<Address>,
)
    requires
        approvers.no_duplicates(),
        forall|a: Address|
            #![trigger approvers.contains(a)]
            approvers.contains(a) <==> admins.contains(a) && signers.contains(a),
    ensures
        admin::distinct_admins(admins, signers) == approvers.len(),
{
    assert(approvers.to_set() =~= signers.to_set().intersect(admins.to_set()));
    approvers.unique_seq_to_set();
}

/// A call is approved if and only if there are admins and as many of them signed as it takes.
pub proof fn law_when_a_call_is_approved(s: EscrowModel, signers: Seq<Address>)
    ensures
        s.admins is None ==> transitions::admin_refusal(s, signers) == Some(
            EscrowFailure::Trap(EscrowTrap::NotInitialized),
        ),
        s.admins matches Some(a) ==> if admin::distinct_admins(a.members, signers) >= a.threshold {
            transitions::admin_refusal(s, signers) is None
        } else {
            transitions::admin_refusal(s, signers) == Some(
                EscrowFailure::Error(EscrowError::InsufficientAdminSignatures),
            )
        },
{
}

/// A list without an address keeps all others in their order and loses every occurrence of it.
pub proof fn law_what_is_left_without_an_address(
    list: Seq<Address>,
    last: Address,
    address: Address,
)
    ensures
        admin::without(Seq::empty(), address) == Seq::<Address>::empty(),
        last == address ==> admin::without(list.push(last), address) == admin::without(
            list,
            address,
        ),
        last != address ==> admin::without(list.push(last), address) == admin::without(
            list,
            address,
        ).push(last),
{
    reveal(Seq::filter);
    assert(list.push(last).drop_last() =~= list);
    assert(admin::without(Seq::empty(), address) =~= Seq::<Address>::empty());
}

/// What is read of a freelancer is what is stored, or zeros; what is read of a job's amendments is
/// what is stored, or zero.
pub proof fn law_what_is_read_of_records(s: EscrowModel, freelancer: Address, job_id: Seq<u8>)
    ensures
        s.reputations.contains_key(freelancer) ==> transitions::reputation_of(s, freelancer)
            == s.reputations[freelancer],
        !s.reputations.contains_key(freelancer) ==> transitions::reputation_of(s, freelancer) == (
        FreelancerReputation {
            total_jobs: 0,
            completed_jobs: 0,
            disputed_jobs: 0,
            total_value_completed: 0,
            on_time_completions: 0,
            created_at: 0,
        }),
        s.amendments.contains_key(job_id) ==> transitions::amendment_count(s, job_id)
            == s.amendments[job_id],
        !s.amendments.contains_key(job_id) ==> transitions::amendment_count(s, job_id) == 0,
{
}

/// Before the first call there is nothing.
pub proof fn law_what_the_contract_starts_with()
    ensures
        ({
            let s = crate::escrow::state::empty_state();
            &&& s.admins is None
            &&& s.jobs == Map::<Seq<u8>, crate::escrow::types::JobModel>::empty()
            &&& s.job_count == 0
            &&& s.job_ids.len() == 0
            &&& s.amendments == Map::<Seq<u8>, u32>::empty()
            &&& s.reputations == Map::<Address, FreelancerReputation>::empty()
            &&& s.disputes_counted == Map::<Seq<u8>, bool>::empty()
            &&& s.completions == Map::<Seq<u8>, bool>::empty()
        }),
{
}

} // verus!
