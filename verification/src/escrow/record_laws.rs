//! What the records of freelancers say of the jobs.

use vstd::prelude::*;

use crate::address::Address;
use crate::escrow::calls;
use crate::escrow::calls::EscrowCall;
use crate::escrow::fund_laws;
use crate::escrow::laws;
use crate::escrow::milestones;
use crate::escrow::state;
use crate::escrow::state::EscrowModel;
use crate::escrow::transitions;
use crate::escrow::types::JobStatus;

verus! {

/// How many of the ids have a property.
pub open spec fn tally(ids: Seq<Seq<u8>>, p: spec_fn(Seq<u8>) -> bool) -> nat
    decreases ids.len(),
{
    if ids.len() == 0 {
        0
    } else {
        tally(ids.drop_last(), p) + if p(ids.last()) {
            1nat
        } else {
            0nat
        }
    }
}

proof fn lemma_tally_same(
    ids: Seq<Seq<u8>>,
    p: spec_fn(Seq<u8>) -> bool,
    q: spec_fn(Seq<u8>) -> bool,
)
    requires
        forall|i: int| 0 <= i < ids.len() ==> p(#[trigger] ids[i]) == q(ids[i]),
    ensures
        tally(ids, p) == tally(ids, q),
    decreases ids.len(),
{
    if ids.len() > 0 {
        let rest = ids.drop_last();
        assert forall|i: int| 0 <= i < rest.len() implies p(#[trigger] rest[i]) == q(rest[i]) by {
            assert(rest[i] == ids[i]);
        }
        lemma_tally_same(rest, p, q);
        assert(ids.last() == ids[ids.len() - 1]);
    }
}

proof fn lemma_tally_bound(
    ids: Seq<Seq<u8>>,
    p: spec_fn(Seq<u8>) -> bool,
    q: spec_fn(Seq<u8>) -> bool,
)
    requires
        forall|i: int| 0 <= i < ids.len() && p(#[trigger] ids[i]) ==> q(ids[i]),
    ensures
        tally(ids, p) <= tally(ids, q),
    decreases ids.len(),
{
    if ids.len() > 0 {
        let rest = ids.drop_last();
        assert forall|i: int| 0 <= i < rest.len() && p(#[trigger] rest[i]) implies q(rest[i]) by {
            assert(rest[i] == ids[i]);
        }
        lemma_tally_bound(rest, p, q);
        assert(ids.last() == ids[ids.len() - 1]);
    }
}

proof fn lemma_tally_positive(ids: Seq<Seq<u8>>, p: spec_fn(Seq<u8>) -> bool, id: Seq<u8>)
    requires
        ids.contains(id),
        p(id),
    ensures
        tally(ids, p) > 0,
    decreases ids.len(),
{
    let i = choose|i: int| 0 <= i < ids.len() && ids[i] == id;
    if i < ids.len() - 1 {
        assert(ids.drop_last()[i] == id);
        lemma_tally_positive(ids.drop_last(), p, id);
    }
}

proof fn lemma_tally_change(
    ids: Seq<Seq<u8>>,
    p: spec_fn(Seq<u8>) -> bool,
    q: spec_fn(Seq<u8>) -> bool,
    id: Seq<u8>,
)
    requires
        ids.no_duplicates(),
        ids.contains(id),
        forall|x: Seq<u8>| x != id ==> #[trigger] p(x) == q(x),
    ensures
        tally(ids, q) - (if q(id) {
            1int
        } else {
            0int
        }) == tally(ids, p) - (if p(id) {
            1int
        } else {
            0int
        }),
    decreases ids.len(),
{
    let rest = ids.drop_last();
    let i = choose|i: int| 0 <= i < ids.len() && ids[i] == id;
    if ids.last() == id {
        assert forall|j: int| 0 <= j < rest.len() implies p(#[trigger] rest[j]) == q(rest[j]) by {
            assert(rest[j] == ids[j]);
            assert(ids[j] != ids[ids.len() - 1]);
        }
        lemma_tally_same(rest, p, q);
    } else {
        assert(rest[i] == id);
        assert(rest.no_duplicates()) by {
            assert forall|a: int, b: int|
                0 <= a < rest.len() && 0 <= b < rest.len() && a != b implies rest[a] != rest[b] by {
                assert(rest[a] == ids[a] && rest[b] == ids[b]);
            }
        }
        lemma_tally_change(rest, p, q, id);
        assert(p(ids.last()) == q(ids.last()));
    }
}

/// To be a job of the freelancer.
pub open spec fn given_to(s: EscrowModel, freelancer: Address) -> spec_fn(Seq<u8>) -> bool {
    |id: Seq<u8>| s.jobs[id].freelancer == freelancer
}

/// To be a job of the freelancer whose dispute was counted.
pub open spec fn disputed_of(s: EscrowModel, freelancer: Address) -> spec_fn(Seq<u8>) -> bool {
    |id: Seq<u8>| s.jobs[id].freelancer == freelancer && s.disputes_counted.contains_key(id)
}

/// The completion of the job was counted.
pub open spec fn counted(s: EscrowModel, id: Seq<u8>) -> bool {
    s.completions.contains_key(id) && s.completions[id]
}

/// To be a job of the freelancer whose completion was counted.
pub open spec fn completed_of(s: EscrowModel, freelancer: Address) -> spec_fn(Seq<u8>) -> bool {
    |id: Seq<u8>| s.jobs[id].freelancer == freelancer && counted(s, id)
}

/// The record of a freelancer agrees with the jobs: it counts every job given to the freelancer, every
/// job disputed and every job completed, each once. Without a job there is no record.
pub open spec fn record_agrees(s: EscrowModel, freelancer: Address) -> bool {
    let r = transitions::reputation_of(s, freelancer);
    &&& r.total_jobs == tally(s.job_ids, given_to(s, freelancer))
    &&& r.disputed_jobs == tally(s.job_ids, disputed_of(s, freelancer))
    &&& r.completed_jobs == tally(s.job_ids, completed_of(s, freelancer))
    &&& r.on_time_completions <= r.completed_jobs
    &&& r.total_value_completed >= 0
    &&& s.reputations.contains_key(freelancer) ==> r.total_jobs > 0
}

/// Every record agrees with the jobs, no dispute is counted but of a job, and no job is at an end
/// without a released milestone.
pub open spec fn records_agree(s: EscrowModel) -> bool {
    &&& forall|f: Address| #[trigger] record_agrees(s, f)
    &&& forall|id: Seq<u8>| #[trigger]
        s.disputes_counted.contains_key(id) ==> s.jobs.contains_key(id)
    &&& forall|id: Seq<u8>| #[trigger]
        s.completions.contains_key(id) ==> s.jobs.contains_key(id) && milestones::any_released(
            s.jobs[id].milestones,
        )
}

/// Before the first call every record agrees with the jobs.
pub proof fn law_empty_records_agree()
    ensures
        records_agree(state::empty_state()),
{
    assert forall|f: Address| #[trigger] record_agrees(state::empty_state(), f) by {
        assert(tally(state::empty_state().job_ids, given_to(state::empty_state(), f)) == 0);
        assert(tally(state::empty_state().job_ids, disputed_of(state::empty_state(), f)) == 0);
        assert(tally(state::empty_state().job_ids, completed_of(state::empty_state(), f)) == 0);
    }
}

/// Every call keeps the records in agreement with the jobs.
pub proof fn law_records_stay_in_agreement(s: EscrowModel, call: EscrowCall)
    requires
        laws::well_formed(s),
        records_agree(s),
        calls::outcome(s, call) is Ok,
    ensures
        records_agree(calls::outcome(s, call)->Ok_0.0),
{
    let next = calls::outcome(s, call)->Ok_0.0;
    if call is CreateJob {
        lemma_creation_keeps_records(s, call);
    } else if calls::subject(call) is Some {
        let id = calls::subject(call)->0;
        laws::law_terms_of_a_job_never_change(s, call, id);
        lemma_job_call(s, call);
        assert forall|f: Address| #[trigger] record_agrees(next, f) by {
            assert(record_agrees(s, f));
            lemma_tallies(s, next, id, f);
            if f == s.jobs[id].freelancer {
                lemma_tally_positive(s.job_ids, given_to(s, f), id);
            }
        }
        assert forall|x: Seq<u8>| #[trigger]
            next.disputes_counted.contains_key(x) implies next.jobs.contains_key(x) by {
            assert(x == id || s.disputes_counted.contains_key(x));
        }
        assert forall|x: Seq<u8>| #[trigger]
            next.completions.contains_key(x) implies next.jobs.contains_key(x)
            && milestones::any_released(next.jobs[x].milestones) by {
            if x != id {
                assert(s.completions.contains_key(x));
            }
        }
    } else {
        assert(next.jobs == s.jobs && next.job_ids == s.job_ids);
        assert forall|f: Address| #[trigger] record_agrees(next, f) by {
            assert(record_agrees(s, f));
            assert(given_to(next, f) =~= given_to(s, f));
            assert(disputed_of(next, f) =~= disputed_of(s, f));
            assert(completed_of(next, f) =~= completed_of(s, f));
        }
    }
}

/// One where the condition holds, zero otherwise.
pub open spec fn one_if(b: bool) -> int {
    if b {
        1
    } else {
        0
    }
}

/// What a call about an existing job does to the record of its freelancer.
proof fn lemma_job_call(s: EscrowModel, call: EscrowCall)
    requires
        laws::well_formed(s),
        records_agree(s),
        calls::outcome(s, call) is Ok,
        calls::subject(call) is Some,
        call !is CreateJob,
    ensures
        ({
            let next = calls::outcome(s, call)->Ok_0.0;
            let id = calls::subject(call)->0;
            let (job, after) = (s.jobs[id], next.jobs[id]);
            let r = transitions::reputation_of(s, job.freelancer);
            let n = transitions::reputation_of(next, job.freelancer);
            &&& s.jobs.contains_key(id)
            &&& next.jobs == s.jobs.insert(id, after)
            &&& next.job_ids == s.job_ids
            &&& after.freelancer == job.freelancer
            &&& forall|f: Address|
                f != job.freelancer ==> #[trigger] transitions::reputation_of(next, f)
                    == transitions::reputation_of(s, f)
            &&& forall|f: Address|
                f != job.freelancer ==> (#[trigger] next.reputations.contains_key(f)
                    <==> s.reputations.contains_key(f))
            &&& next.disputes_counted == s.disputes_counted || next.disputes_counted
                == s.disputes_counted.insert(id, true)
            &&& next.completions == s.completions || next.completions == s.completions.insert(
                id,
                next.completions[id],
            )
            &&& next.completions.contains_key(id) ==> milestones::any_released(after.milestones)
            &&& n.total_jobs == r.total_jobs
            &&& n.disputed_jobs == r.disputed_jobs + one_if(
                next.disputes_counted.contains_key(id),
            ) - one_if(s.disputes_counted.contains_key(id))
            &&& n.completed_jobs == r.completed_jobs + one_if(counted(next, id)) - one_if(
                counted(s, id),
            )
            &&& n.on_time_completions - r.on_time_completions <= n.completed_jobs
                - r.completed_jobs
            &&& n.total_value_completed >= r.total_value_completed
        }),
{
    let next = calls::outcome(s, call)->Ok_0.0;
    let id = calls::subject(call)->0;
    let (job, after) = (s.jobs[id], next.jobs[id]);
    laws::law_terms_of_a_job_never_change(s, call, id);
    assert(laws::job_well_formed(id, job));
    if s.completions.contains_key(id) {
        let i = choose|i: int|
            0 <= i < job.milestones.len() && (#[trigger] job.milestones[i]).released;
        laws::law_released_stays_released(s, call, id, i);
        assert(!(call is AmendJobMilestones));
        assert(after.milestones[i].released);
    } else if next.completions.contains_key(id) {
        assert(milestones::all_released(after.milestones));
        assert(after.milestones[0].released);
    }
}

proof fn lemma_tallies(s: EscrowModel, next: EscrowModel, id: Seq<u8>, f: Address)
    requires
        laws::jobs_listed(s),
        s.jobs.contains_key(id),
        next.jobs == s.jobs.insert(id, next.jobs[id]),
        next.job_ids == s.job_ids,
        next.jobs[id].freelancer == s.jobs[id].freelancer,
        next.disputes_counted == s.disputes_counted || next.disputes_counted
            == s.disputes_counted.insert(id, true),
        next.completions == s.completions || next.completions == s.completions.insert(
            id,
            next.completions[id],
        ),
    ensures
        tally(next.job_ids, given_to(next, f)) == tally(s.job_ids, given_to(s, f)),
        tally(next.job_ids, disputed_of(next, f)) == tally(s.job_ids, disputed_of(s, f)) + (
        if s.jobs[id].freelancer == f {
            one_if(next.disputes_counted.contains_key(id)) - one_if(
                s.disputes_counted.contains_key(id),
            )
        } else {
            0
        }),
        tally(next.job_ids, completed_of(next, f)) == tally(s.job_ids, completed_of(s, f)) + (
        if s.jobs[id].freelancer == f {
            one_if(counted(next, id)) - one_if(counted(s, id))
        } else {
            0
        }),
{
    assert(s.job_ids.contains(id));
    lemma_tally_change(s.job_ids, given_to(s, f), given_to(next, f), id);
    lemma_tally_change(s.job_ids, disputed_of(s, f), disputed_of(next, f), id);
    lemma_tally_change(s.job_ids, completed_of(s, f), completed_of(next, f), id);
}

proof fn lemma_creation_keeps_records(s: EscrowModel, call: EscrowCall)
    requires
        laws::well_formed(s),
        records_agree(s),
        call is CreateJob,
        calls::outcome(s, call) is Ok,
    ensures
        records_agree(calls::outcome(s, call)->Ok_0.0),
{
    let next = calls::outcome(s, call)->Ok_0.0;
    let id = calls::subject(call)->0;
    let owner = call->CreateJob_freelancer;
    assert(!s.job_ids.contains(id));
    assert(!s.disputes_counted.contains_key(id));
    assert(!s.completions.contains_key(id));
    assert(next.job_ids.drop_last() =~= s.job_ids);
    assert(next.job_ids.last() == id);
    assert forall|f: Address| #[trigger] record_agrees(next, f) by {
        assert(record_agrees(s, f));
        assert forall|i: int| 0 <= i < s.job_ids.len() implies #[trigger] s.job_ids[i] != id by {}
        lemma_tally_same(s.job_ids, given_to(s, f), given_to(next, f));
        lemma_tally_same(s.job_ids, disputed_of(s, f), disputed_of(next, f));
        lemma_tally_same(s.job_ids, completed_of(s, f), completed_of(next, f));
        assert(given_to(next, f)(id) == (owner == f));
        assert(!disputed_of(next, f)(id));
        assert(!completed_of(next, f)(id));
    }
}

/// Initialization leaves the records in agreement with the jobs.
pub proof fn law_initialize_keeps_records_in_agreement(
    s: EscrowModel,
    admins: Seq<Address>,
    threshold: u32,
)
    requires
        records_agree(s),
    ensures
        records_agree(transitions::initialized(s, admins, threshold)),
{
    let next = transitions::initialized(s, admins, threshold);
    assert forall|f: Address| #[trigger] record_agrees(next, f) by {
        assert(record_agrees(s, f));
        assert(given_to(next, f) =~= given_to(s, f));
        assert(disputed_of(next, f) =~= disputed_of(s, f));
        assert(completed_of(next, f) =~= completed_of(s, f));
    }
}

/// After any row of calls the records agree with the jobs.
pub proof fn law_records_agree_after_any_row(s: EscrowModel, row: Seq<EscrowCall>)
    requires
        laws::well_formed(s),
        records_agree(s),
    ensures
        laws::well_formed(fund_laws::state_after(s, row)),
        records_agree(fund_laws::state_after(s, row)),
    decreases row.len(),
{
    if row.len() > 0 {
        law_records_agree_after_any_row(s, row.drop_last());
        let before = fund_laws::state_after(s, row.drop_last());
        if calls::outcome(before, row.last()) is Ok {
            laws::law_every_call_keeps_state_well_formed(before, row.last());
            law_records_stay_in_agreement(before, row.last());
        }
    }
}

/// A record never counts more disputed or more completed jobs than jobs, nor more jobs completed on
/// time than completed, and without a job all of it is zero.
pub proof fn law_record_counts_are_consistent(s: EscrowModel, freelancer: Address)
    requires
        record_agrees(s, freelancer),
    ensures
        ({
            let r = transitions::reputation_of(s, freelancer);
            &&& r.disputed_jobs <= r.total_jobs
            &&& r.completed_jobs <= r.total_jobs
            &&& r.on_time_completions <= r.completed_jobs
            &&& r.total_jobs == 0 ==> r == transitions::blank_reputation()
        }),
{
    lemma_tally_bound(s.job_ids, disputed_of(s, freelancer), given_to(s, freelancer));
    lemma_tally_bound(s.job_ids, completed_of(s, freelancer), given_to(s, freelancer));
}

/// Records only grow, and the ledger at which one was begun stays.
#[verifier::spinoff_prover]
#[verifier::rlimit(40)]
pub proof fn law_records_only_grow(s: EscrowModel, call: EscrowCall, freelancer: Address)
    requires
        laws::well_formed(s),
        calls::outcome(s, call) is Ok,
    ensures
        ({
            let next = calls::outcome(s, call)->Ok_0.0;
            let r = transitions::reputation_of(s, freelancer);
            let n = transitions::reputation_of(next, freelancer);
            &&& r.total_jobs <= n.total_jobs
            &&& r.completed_jobs <= n.completed_jobs
            &&& r.disputed_jobs <= n.disputed_jobs
            &&& r.total_value_completed <= n.total_value_completed
            &&& r.on_time_completions <= n.on_time_completions
            &&& s.reputations.contains_key(freelancer) ==> next.reputations.contains_key(freelancer)
                && n.created_at == r.created_at
        }),
{
    if calls::subject(call) is Some && call !is CreateJob {
        let id = calls::subject(call)->0;
        laws::law_terms_of_a_job_never_change(s, call, id);
        assert(laws::job_well_formed(id, s.jobs[id]));
    }
}

/// The disputes of a job count once: after the first, another leaves every record as it is.
pub proof fn law_dispute_counts_once(s: EscrowModel, first: EscrowCall, second: EscrowCall)
    requires
        laws::well_formed(s),
        first is DisputeJob || first is DisputeMilestone,
        second is DisputeJob || second is DisputeMilestone,
        calls::subject(first) == calls::subject(second),
        calls::outcome(s, first) is Ok,
        calls::outcome(calls::outcome(s, first)->Ok_0.0, second) is Ok,
    ensures
        calls::outcome(calls::outcome(s, first)->Ok_0.0, second)->Ok_0.0.reputations
            == calls::outcome(s, first)->Ok_0.0.reputations,
{
    let id = calls::subject(first)->0;
    assert(laws::job_well_formed(id, s.jobs[id]));
    assert(calls::outcome(s, first)->Ok_0.0.disputes_counted.contains_key(id));
}

/// A job that is completed for the first time is recorded with its whole amount, and as on time if and
/// only if the deadline has not passed.
pub proof fn law_completion_is_recorded(s: EscrowModel, call: EscrowCall)
    requires
        calls::outcome(s, call) is Ok,
        call is ReleaseMilestone || call is ClaimMilestone || call is ResolveDispute
            || call is ResolveMilestoneDispute,
        calls::outcome(s, call)->Ok_0.0.jobs[calls::subject(call)->0].status
            == JobStatus::Completed,
        laws::job_well_formed(calls::subject(call)->0, s.jobs[calls::subject(call)->0]),
        !s.completions.contains_key(calls::subject(call)->0),
    ensures
        ({
            let (next, receipt) = calls::outcome(s, call)->Ok_0;
            let job = next.jobs[calls::subject(call)->0];
            let sequence = match call {
                EscrowCall::ReleaseMilestone { ctx, .. } => ctx.sequence,
                EscrowCall::ClaimMilestone { ctx, .. } => ctx.sequence,
                EscrowCall::ResolveDispute { ctx, .. } => ctx.sequence,
                EscrowCall::ResolveMilestoneDispute { ctx, .. } => ctx.sequence,
                _ => 0,
            };
            let r = transitions::reputation_of(s, job.freelancer);
            let n = transitions::reputation_of(next, job.freelancer);
            &&& n.completed_jobs == r.completed_jobs + 1
            &&& n.total_value_completed == r.total_value_completed + job.amount
            &&& n.on_time_completions == r.on_time_completions + one_if(sequence <= job.deadline)
            &&& receipt.reputation == Some(transitions::update_of(job.freelancer, n))
            &&& counted(next, calls::subject(call)->0)
        }),
{
}

/// A job is recorded as completed once: after it was brought to an end, by payment or by a refund, no
/// call about it changes the counts of completed jobs and their value, and it stays at its end.
#[verifier::spinoff_prover]
#[verifier::rlimit(40)]
pub proof fn law_completion_counts_once(s: EscrowModel, call: EscrowCall, freelancer: Address)
    requires
        laws::well_formed(s),
        calls::outcome(s, call) is Ok,
        calls::subject(call) is Some,
        s.jobs.contains_key(calls::subject(call)->0),
        s.completions.contains_key(calls::subject(call)->0),
    ensures
        ({
            let (next, receipt) = calls::outcome(s, call)->Ok_0;
            let r = transitions::reputation_of(s, freelancer);
            let n = transitions::reputation_of(next, freelancer);
            &&& n.completed_jobs == r.completed_jobs
            &&& n.total_value_completed == r.total_value_completed
            &&& n.on_time_completions == r.on_time_completions
            &&& receipt.reputation is None
            &&& next.completions.contains_key(calls::subject(call)->0)
        }),
{
    let id = calls::subject(call)->0;
    assert(laws::job_well_formed(id, s.jobs[id]));
}

/// A refund brings a job to an end without counting it as completed.
pub proof fn law_refund_is_not_recorded(
    s: EscrowModel,
    ctx: crate::context::CallContext,
    client: Address,
    job_id: Seq<u8>,
)
    requires
        laws::job_well_formed(job_id, s.jobs[job_id]),
        transitions::refund_step(s, ctx, client, job_id) is Ok,
    ensures
        ({
            let (next, receipt) = transitions::refund_step(s, ctx, client, job_id)->Ok_0;
            &&& next.reputations == s.reputations
            &&& receipt.reputation is None
            &&& next.completions.contains_key(job_id)
            &&& !counted(next, job_id)
        }),
{
}

} // verus!
