//! What holds of the price oracle whatever is called.

use vstd::prelude::*;

use crate::address::Address;
use crate::context::CallContext;
use crate::oracle::calls;
use crate::oracle::calls::OracleCall;
use crate::oracle::deviation;
use crate::oracle::error::{OracleError, OracleFailure};
use crate::oracle::events::OracleEvent;
use crate::oracle::ring;
use crate::oracle::ring::{PriceObservation, MAX_OBSERVATIONS};
use crate::oracle::state;
use crate::oracle::state::{OracleModel, MAX_SOURCE_ORACLES};
use crate::oracle::transitions;
use crate::oracle::twap;
use crate::oracle::twap::PRICE_SCALE;

verus! {

/// The window and the threshold are in order: something is averaged, no more than is kept, and the
/// threshold is no shorter than the longest window.
pub open spec fn settings_well_formed(s: OracleModel) -> bool {
    &&& 1 <= s.twap_window <= MAX_OBSERVATIONS
    &&& s.twap_window <= s.staleness_threshold
    &&& MAX_OBSERVATIONS <= s.staleness_threshold
    &&& s.fallback_price matches Some(price) ==> price > 0
}

/// No more observations are kept than there is room for, they stand in the slots before the next one,
/// and all prices are positive.
pub open spec fn observations_well_formed(s: OracleModel) -> bool {
    &&& s.observations.len() <= MAX_OBSERVATIONS
    &&& ring::is_buffer(s.slots, s.observations.len() as u32, s.next_slot)
    &&& s.observations == ring::buffered(s.slots, s.observations.len() as u32, s.next_slot)
    &&& forall|i: int| 0 <= i < s.observations.len() ==> (#[trigger] s.observations[i]).price > 0
}

/// The sources are exactly the registered addresses, each listed once, not too many, and not the
/// oracle itself.
pub open spec fn sources_well_formed(s: OracleModel, contract: Address) -> bool {
    &&& s.sources.len() <= MAX_SOURCE_ORACLES
    &&& s.sources.no_duplicates()
    &&& !s.sources.contains(contract)
    &&& forall|a: Address|
        #![trigger s.sources.contains(a)]
        #![trigger transitions::is_source(s, a)]
        transitions::is_source(s, a) <==> s.sources.contains(a)
}

/// No stake is negative, and whoever has one can get it back: the token is known and so is the end of
/// the lock.
pub open spec fn stakes_well_formed(s: OracleModel) -> bool {
    &&& forall|a: Address| #[trigger] transitions::stake_of(s, a) >= 0
    &&& forall|a: Address| #[trigger]
        transitions::stake_of(s, a) > 0 ==> s.stake_available_at.contains_key(a) && s.staking is Some
    &&& s.staking matches Some(config) ==> config.min_stake > 0 && config.unstake_cooldown > 0
}

/// What holds of every state that calls lead to, for the oracle at the address `contract`.
pub open spec fn well_formed(s: OracleModel, contract: Address) -> bool {
    &&& settings_well_formed(s)
    &&& observations_well_formed(s)
    &&& sources_well_formed(s, contract)
    &&& stakes_well_formed(s)
}

/// The state before the first call is well-formed, and so is the initialized one.
pub proof fn law_initialized_state_is_well_formed(contract: Address, admin: Address)
    ensures
        well_formed(state::empty_state(), contract),
        well_formed(transitions::initialized(state::empty_state(), admin), contract),
{
    let s = state::empty_state();
    assert(s.observations =~= ring::buffered(s.slots, 0, 0));
}

/// Every call keeps the state well-formed: in particular, the window of the average stays within what
/// is kept and within the staleness threshold, and no stake ever becomes negative.
pub proof fn law_every_call_keeps_state_well_formed(
    s: OracleModel,
    call: OracleCall,
    contract: Address,
)
    requires
        well_formed(s, contract),
        calls::contract_of(call) matches Some(c) ==> c == contract,
        calls::outcome(s, call) is Ok,
    ensures
        well_formed(calls::outcome(s, call)->Ok_0.0, contract),
{
    let next = calls::outcome(s, call)->Ok_0.0;
    match call {
        OracleCall::AddSourceOracle { source, .. } => {
            lemma_stakes_unchanged(s, next);
            if !transitions::is_source(s, source) {
                lemma_source_added(s, next, contract, source);
            }
        },
        OracleCall::RemoveSourceOracle { source, .. } => {
            lemma_stakes_unchanged(s, next);
            if transitions::is_source(s, source) {
                lemma_source_removed(s, next, contract, source);
            }
        },
        OracleCall::ReportPrice { ctx, reporter, price } => {
            ring::lemma_next_slot_filled(
                s.slots,
                s.observations.len() as u32,
                s.next_slot,
                PriceObservation { price, reporter, ledger: ctx.sequence },
            );
            lemma_sources_unchanged(s, next, contract);
            lemma_stakes_unchanged(s, next);
        },
        OracleCall::Stake { reporter, .. } => {
            lemma_sources_unchanged(s, next, contract);
            lemma_stake_changed(s, next, reporter);
        },
        OracleCall::Unstake { reporter, .. } => {
            lemma_sources_unchanged(s, next, contract);
            lemma_stake_changed(s, next, reporter);
        },
        OracleCall::Slash { reporter, .. } => {
            lemma_sources_unchanged(s, next, contract);
            lemma_stake_changed(s, next, reporter);
        },
        _ => {
            lemma_sources_unchanged(s, next, contract);
            assert forall|a: Address| #[trigger]
                transitions::stake_of(next, a) == transitions::stake_of(s, a) by {}
        },
    }
}

proof fn lemma_sources_unchanged(s: OracleModel, next: OracleModel, contract: Address)
    requires
        sources_well_formed(s, contract),
        next.sources == s.sources,
        next.source_registered == s.source_registered,
    ensures
        sources_well_formed(next, contract),
{
    assert forall|a: Address|
        #![trigger next.sources.contains(a)]
        #![trigger transitions::is_source(next, a)]
        transitions::is_source(next, a) <==> next.sources.contains(a) by {
        assert(transitions::is_source(next, a) == transitions::is_source(s, a));
    }
}

proof fn lemma_stakes_unchanged(s: OracleModel, next: OracleModel)
    requires
        stakes_well_formed(s),
        next.stakes == s.stakes,
        next.stake_available_at == s.stake_available_at,
        next.staking == s.staking,
    ensures
        stakes_well_formed(next),
{
    assert forall|a: Address| #[trigger]
        transitions::stake_of(next, a) == transitions::stake_of(s, a) by {}
}

proof fn lemma_stake_changed(s: OracleModel, next: OracleModel, reporter: Address)
    requires
        stakes_well_formed(s),
        next.staking == s.staking,
        s.staking is Some,
        next.stakes == s.stakes.insert(reporter, next.stakes[reporter]),
        next.stakes[reporter] >= 0,
        next.stakes[reporter] > 0 ==> next.stake_available_at.contains_key(reporter),
        forall|a: Address|
            a != reporter ==> (#[trigger] next.stake_available_at.contains_key(a)
                <==> s.stake_available_at.contains_key(a)),
    ensures
        stakes_well_formed(next),
{
    assert forall|a: Address| a != reporter implies #[trigger] transitions::stake_of(next, a)
        == transitions::stake_of(s, a) by {}
}

proof fn lemma_source_added(
    s: OracleModel,
    next: OracleModel,
    contract: Address,
    source: Address,
)
    requires
        sources_well_formed(s, contract),
        !transitions::is_source(s, source),
        source != contract,
        s.sources.len() < MAX_SOURCE_ORACLES,
        next.sources == s.sources.push(source),
        next.source_registered == s.source_registered.insert(source, true),
    ensures
        sources_well_formed(next, contract),
{
    assert(!s.sources.contains(source));
    assert forall|a: Address| next.sources.contains(a) <==> s.sources.contains(a) || a == source by {
        vstd::seq_lib::lemma_seq_contains_after_push(s.sources, source, a);
    }
    assert forall|a: Address|
        #![trigger next.sources.contains(a)]
        #![trigger transitions::is_source(next, a)]
        transitions::is_source(next, a) <==> next.sources.contains(a) by {
        assert(s.sources.contains(a) <==> transitions::is_source(s, a));
    }
}

proof fn lemma_without_first(list: Seq<Address>, item: Address)
    requires
        list.no_duplicates(),
    ensures
        transitions::without_first(list, item).no_duplicates(),
        transitions::without_first(list, item).len() <= list.len(),
        forall|a: Address| #[trigger]
            transitions::without_first(list, item).contains(a) <==> list.contains(a) && a != item,
    decreases list.len(),
{
    let r = transitions::without_first(list, item);
    if list.len() > 0 {
        let head = list[0];
        let rest = list.drop_first();
        assert(rest.no_duplicates());
        assert(list =~= seq![head] + rest);
        assert forall|a: Address| #[trigger] list.contains(a) <==> a == head || rest.contains(
            a,
        ) by {
            if list.contains(a) {
                let i = choose|i: int| 0 <= i < list.len() && list[i] == a;
                if i > 0 {
                    assert(rest[i - 1] == a);
                }
            }
            if rest.contains(a) {
                let i = choose|i: int| 0 <= i < rest.len() && rest[i] == a;
                assert(list[i + 1] == a);
            }
            assert(list[0] == head);
        }
        assert(!rest.contains(head)) by {
            if rest.contains(head) {
                let i = choose|i: int| 0 <= i < rest.len() && rest[i] == head;
                assert(list[i + 1] == list[0]);
            }
        }
        if head == item {
            assert(r == rest);
        } else {
            lemma_without_first(rest, item);
            let tail = transitions::without_first(rest, item);
            assert(r == seq![head] + tail);
            assert forall|a: Address| #[trigger] r.contains(a) <==> a == head || tail.contains(
                a,
            ) by {
                if r.contains(a) {
                    let i = choose|i: int| 0 <= i < r.len() && r[i] == a;
                    if i > 0 {
                        assert(tail[i - 1] == a);
                    }
                }
                if tail.contains(a) {
                    let i = choose|i: int| 0 <= i < tail.len() && tail[i] == a;
                    assert(r[i + 1] == a);
                }
                assert(r[0] == head);
            }
            assert(!tail.contains(head));
            assert forall|i: int, j: int| 0 <= i < r.len() && 0 <= j < r.len() && i != j implies r[i]
                != r[j] by {
                if i > 0 && j > 0 {
                    assert(r[i] == tail[i - 1] && r[j] == tail[j - 1]);
                } else if i > 0 {
                    assert(r[i] == tail[i - 1] && tail.contains(tail[i - 1]));
                } else {
                    assert(r[j] == tail[j - 1] && tail.contains(tail[j - 1]));
                }
            }
        }
    }
}

proof fn lemma_source_removed(
    s: OracleModel,
    next: OracleModel,
    contract: Address,
    source: Address,
)
    requires
        sources_well_formed(s, contract),
        next.sources == transitions::without_first(s.sources, source),
        next.source_registered == s.source_registered.remove(source),
    ensures
        sources_well_formed(next, contract),
{
    lemma_without_first(s.sources, source);
    assert forall|a: Address|
        #![trigger next.sources.contains(a)]
        #![trigger transitions::is_source(next, a)]
        transitions::is_source(next, a) <==> next.sources.contains(a) by {
        assert(s.sources.contains(a) <==> transitions::is_source(s, a));
    }
}

/// Only the admin makes the admin's calls.
pub proof fn law_admin_calls_need_the_admin(s: OracleModel, call: OracleCall)
    requires
        calls::admin_of(call) is Some,
        calls::outcome(s, call) is Ok,
    ensures
        s.admin == calls::admin_of(call),
{
}

/// The admin stays the same.
pub proof fn law_admin_never_changes(s: OracleModel, call: OracleCall)
    requires
        calls::outcome(s, call) is Ok,
    ensures
        calls::outcome(s, call)->Ok_0.0.admin == s.admin,
{
}

/// Only a report changes the observations, and only one of a reporter with enough of a stake and a
/// positive price.
pub proof fn law_only_reporters_change_observations(s: OracleModel, call: OracleCall)
    requires
        calls::outcome(s, call) is Ok,
        calls::outcome(s, call)->Ok_0.0.observations != s.observations,
    ensures
        call matches OracleCall::ReportPrice { reporter, price, .. } && transitions::is_reporter(
            s,
            reporter,
        ) && transitions::stake_of(s, reporter) >= transitions::min_stake(s) && price > 0,
{
}

/// A report that is taken becomes the newest observation; the others stay in their order, and only
/// the oldest leaves, and only a full buffer.
pub proof fn law_report_keeps_the_most_recent(
    s: OracleModel,
    ctx: CallContext,
    reporter: Address,
    price: i128,
)
    requires
        s.observations.len() <= MAX_OBSERVATIONS,
        transitions::report_step(s, ctx, reporter, price) is Ok,
        transitions::report_step(s, ctx, reporter, price)->Ok_0.1.event is Some,
        transitions::report_step(s, ctx, reporter, price)->Ok_0.1.event->0 is PriceUpdated,
    ensures
        ({
            let next = transitions::report_step(s, ctx, reporter, price)->Ok_0.0.observations;
            let kept = if s.observations.len() < MAX_OBSERVATIONS {
                s.observations
            } else {
                s.observations.drop_first()
            };
            next == kept.push(PriceObservation { price, reporter, ledger: ctx.sequence })
        }),
{
    let next = transitions::report_step(s, ctx, reporter, price)->Ok_0.0.observations;
    let new = PriceObservation { price, reporter, ledger: ctx.sequence };
    if s.observations.len() < MAX_OBSERVATIONS {
        assert(next =~= s.observations.push(new));
    } else {
        assert(next =~= s.observations.drop_first().push(new));
    }
}

/// A report that is taken fills the next slot and no other, and the slot after it is the next to be
/// filled, round and round.
pub proof fn law_report_fills_the_next_slot(
    s: OracleModel,
    ctx: CallContext,
    reporter: Address,
    price: i128,
    i: int,
)
    requires
        observations_well_formed(s),
        transitions::report_step(s, ctx, reporter, price) is Ok,
        transitions::report_step(s, ctx, reporter, price)->Ok_0.1.event is Some,
        transitions::report_step(s, ctx, reporter, price)->Ok_0.1.event->0 is PriceUpdated,
        0 <= i < MAX_OBSERVATIONS,
    ensures
        ({
            let next = transitions::report_step(s, ctx, reporter, price)->Ok_0.0;
            &&& next.slots[i] == if i == s.next_slot {
                Some(PriceObservation { price, reporter, ledger: ctx.sequence })
            } else {
                s.slots[i]
            }
            &&& next.next_slot == (s.next_slot + 1) % (MAX_OBSERVATIONS as int)
            &&& next.observations.len() == if s.observations.len() < MAX_OBSERVATIONS {
                s.observations.len() + 1
            } else {
                MAX_OBSERVATIONS as nat
            }
        }),
{
}

/// A report that is rejected for its deviation leaves everything as it is.
pub proof fn law_rejected_report_changes_nothing(
    s: OracleModel,
    ctx: CallContext,
    reporter: Address,
    price: i128,
)
    requires
        transitions::report_step(s, ctx, reporter, price) is Ok,
        transitions::report_step(s, ctx, reporter, price)->Ok_0.1.event matches Some(
            OracleEvent::PriceRejected { .. },
        ),
    ensures
        transitions::report_step(s, ctx, reporter, price)->Ok_0.0 == s,
{
}

/// With a limit set and a current price there is, no price is taken that deviates further from it than
/// the limit allows, and every price within the limit is.
pub proof fn law_breaker_bounds_reports(
    s: OracleModel,
    ctx: CallContext,
    reporter: Address,
    price: i128,
    current: int,
)
    requires
        transitions::report_refusal(s, reporter, price) is None,
        transitions::breaker_active(s),
        transitions::baseline(s, ctx.sequence) == Ok::<Option<int>, crate::oracle::error::OracleTrap>(
            Some(current),
        ),
    ensures
        transitions::report_step(s, ctx, reporter, price) is Ok,
        transitions::report_step(s, ctx, reporter, price)->Ok_0.1.event is Some,
        transitions::report_step(s, ctx, reporter, price)->Ok_0.1.event->0 is PriceUpdated
            <==> deviation::deviation_bps(price as int, current) <= s.max_price_deviation_bps,
{
}

/// Without a limit, or with fewer than two observations, every report of a reporter is taken.
pub proof fn law_inactive_breaker_takes_every_report(
    s: OracleModel,
    ctx: CallContext,
    reporter: Address,
    price: i128,
)
    requires
        transitions::report_refusal(s, reporter, price) is None,
        s.max_price_deviation_bps == 0 || s.observations.len() < 2,
    ensures
        transitions::report_step(s, ctx, reporter, price) == transitions::recorded(
            s,
            ctx,
            reporter,
            price,
        ),
{
}

/// What a stake changes by is what is moved: in from the reporter, out to the reporter or to the
/// treasury.
pub proof fn law_stakes_match_transfers(s: OracleModel, call: OracleCall, reporter: Address)
    requires
        calls::outcome(s, call) is Ok,
    ensures
        ({
            let (next, receipt) = calls::outcome(s, call)->Ok_0;
            let change = transitions::stake_of(next, reporter) - transitions::stake_of(s, reporter);
            match call {
                OracleCall::Stake { ctx, reporter: r, amount } if r == reporter => {
                    &&& change == amount
                    &&& receipt.transfer matches Some(t) && t.from == reporter && t.to
                        == ctx.contract && t.amount == amount
                },
                OracleCall::Unstake { ctx, reporter: r } if r == reporter => {
                    &&& transitions::stake_of(next, reporter) == 0
                    &&& receipt.transfer matches Some(t) && t.from == ctx.contract && t.to
                        == reporter && t.amount == -change
                },
                OracleCall::Slash { ctx, reporter: r, amount, .. } if r == reporter => {
                    &&& change == -amount
                    &&& receipt.transfer matches Some(t) && t.from == ctx.contract && t.to
                        == s.staking->0.treasury && t.amount == amount
                },
                _ => change == 0,
            }
        }),
{
}

/// Only the calls about stakes ask for a token movement, and they always do.
pub proof fn law_transfers_come_from_stake_calls(s: OracleModel, call: OracleCall)
    requires
        calls::outcome(s, call) is Ok,
    ensures
        calls::outcome(s, call)->Ok_0.1.transfer is Some <==> (call is Stake || call is Unstake
            || call is Slash),
{
}

/// A slash never takes more than there is.
pub proof fn law_slash_is_bounded_by_the_stake(
    s: OracleModel,
    ctx: CallContext,
    admin: Address,
    reporter: Address,
    amount: i128,
    reason: Seq<u8>,
)
    requires
        transitions::slash_step(s, ctx, admin, reporter, amount, reason) is Ok,
    ensures
        0 < amount <= transitions::stake_of(s, reporter),
        transitions::stake_of(
            transitions::slash_step(s, ctx, admin, reporter, amount, reason)->Ok_0.0,
            reporter,
        ) >= 0,
{
}

/// The history of a reporter's slashes only grows at its end, and only by a slash.
pub proof fn law_slash_history_is_append_only(
    s: OracleModel,
    call: OracleCall,
    reporter: Address,
)
    requires
        calls::outcome(s, call) is Ok,
    ensures
        ({
            let before = transitions::slashes_of(s, reporter);
            let after = transitions::slashes_of(calls::outcome(s, call)->Ok_0.0, reporter);
            &&& before.is_prefix_of(after)
            &&& after.len() == before.len() + (if call matches OracleCall::Slash {
                reporter: r,
                ..
            } && r == reporter {
                1int
            } else {
                0int
            })
        }),
{
}

/// A stake is withdrawn only when its lock has ended, and each deposit locks the whole stake anew.
pub proof fn law_stake_is_locked_for_the_cooldown(
    s: OracleModel,
    deposit: CallContext,
    reporter: Address,
    amount: i128,
    withdrawal: CallContext,
)
    requires
        transitions::stake_step(s, deposit, reporter, amount) is Ok,
        transitions::unstake_step(
            transitions::stake_step(s, deposit, reporter, amount)->Ok_0.0,
            withdrawal,
            reporter,
        ) is Ok,
    ensures
        withdrawal.sequence >= deposit.sequence + s.staking->0.unstake_cooldown,
{
}

/// Whoever has a stake gets all of it back once its lock has ended.
pub proof fn law_stake_can_be_withdrawn(
    s: OracleModel,
    contract: Address,
    ctx: CallContext,
    reporter: Address,
)
    requires
        well_formed(s, contract),
        transitions::stake_of(s, reporter) > 0,
        ctx.sequence >= s.stake_available_at[reporter],
    ensures
        transitions::unstake_step(s, ctx, reporter) matches Ok((next, receipt))
            && receipt.transfer matches Some(t) && t.to == reporter && t.amount
            == transitions::stake_of(s, reporter),
{
}

/// A reconfiguration leaves every stake alone.
pub proof fn law_reconfiguration_keeps_stakes(s: OracleModel, call: OracleCall)
    requires
        call is ConfigureStaking,
        calls::outcome(s, call) is Ok,
    ensures
        calls::outcome(s, call)->Ok_0.0.stakes == s.stakes,
        calls::outcome(s, call)->Ok_0.0.stake_available_at == s.stake_available_at,
{
}

/// To register a source twice is to register it once.
pub proof fn law_adding_a_source_is_idempotent(
    s: OracleModel,
    ctx: CallContext,
    admin: Address,
    source: Address,
)
    requires
        transitions::add_source_step(s, ctx, admin, source) is Ok,
    ensures
        ({
            let once = transitions::add_source_step(s, ctx, admin, source)->Ok_0.0;
            transitions::add_source_step(once, ctx, admin, source) == Ok::<
                (OracleModel, crate::oracle::events::OracleReceipt<Seq<u8>>),
                OracleFailure,
            >((once, transitions::silence()))
        }),
{
}

/// To remove a new source leaves the sources as they were before it was added.
pub proof fn law_removal_undoes_addition(
    s: OracleModel,
    ctx: CallContext,
    admin: Address,
    source: Address,
)
    requires
        sources_well_formed(s, ctx.contract),
        !transitions::is_source(s, source),
        transitions::add_source_step(s, ctx, admin, source) is Ok,
    ensures
        ({
            let added = transitions::add_source_step(s, ctx, admin, source)->Ok_0.0;
            &&& transitions::remove_source_step(added, admin, source) is Ok
            &&& transitions::remove_source_step(added, admin, source)->Ok_0.0.sources == s.sources
        }),
{
    assert(!s.sources.contains(source));
    lemma_without_last(s.sources, source);
}

proof fn lemma_without_last(list: Seq<Address>, item: Address)
    requires
        !list.contains(item),
    ensures
        transitions::without_first(list.push(item), item) == list,
    decreases list.len(),
{
    let all = list.push(item);
    if list.len() == 0 {
        assert(all.drop_first() =~= list);
    } else {
        let rest = list.drop_first();
        assert(list[0] != item);
        assert(!rest.contains(item)) by {
            if rest.contains(item) {
                let i = choose|i: int| 0 <= i < rest.len() && rest[i] == item;
                assert(list[i + 1] == item);
            }
        }
        lemma_without_last(rest, item);
        assert(all.drop_first() =~= rest.push(item));
        assert(all[0] == list[0]);
        assert(list =~= seq![list[0]] + rest);
    }
}

/// What readers get is the current price, taken out of the scale of reported prices.
pub proof fn law_quoted_price_is_the_scaled_baseline(s: OracleModel, now: u32, current: int)
    requires
        transitions::baseline(s, now) == Ok::<Option<int>, crate::oracle::error::OracleTrap>(
            Some(current),
        ),
    ensures
        transitions::quoted_price(s, now) == Ok::<int, OracleFailure>(
            twap::quotient(current, PRICE_SCALE as int),
        ),
{
    let window = transitions::window(s);
    let sum = transitions::window_sum(s, now)->Ok_0;
    let weight = transitions::window_weight(s, now);
    twap::lemma_total_weight_bounds(window, now, window.len() as int);
    if sum >= 0 {
        lemma_nested_quotient(sum, weight, PRICE_SCALE as int);
    } else {
        lemma_nested_quotient(-sum, weight, PRICE_SCALE as int);
    }
}

proof fn lemma_nested_quotient(n: int, a: int, b: int)
    requires
        n >= 0,
        a > 0,
        b > 0,
    ensures
        n / (a * b) == (n / a) / b,
        n / a >= 0,
        (n / a) / b >= 0,
        a * b > 0,
{
    vstd::arithmetic::div_mod::lemma_div_denominator(n, a, b);
    assert(n / a >= 0) by (nonlinear_arith)
        requires
            n >= 0,
            a > 0,
    ;
    let q = n / a;
    assert(q / b >= 0) by (nonlinear_arith)
        requires
            q >= 0,
            b > 0,
    ;
    assert(a * b > 0) by (nonlinear_arith)
        requires
            a > 0,
            b > 0,
    ;
}

/// A price that readers get from observations lies between the least and the greatest price of the
/// window, both taken out of the scale of reported prices.
pub proof fn law_quoted_price_lies_between_prices(s: OracleModel, now: u32, low: int, high: int)
    requires
        settings_well_formed(s),
        s.observations.len() > 0,
        !transitions::is_stale(s, now),
        0 <= low,
        twap::prices_within(transitions::window(s), low, high),
        transitions::quoted_price(s, now) is Ok,
    ensures
        low / (PRICE_SCALE as int) <= transitions::quoted_price(s, now)->Ok_0 <= high / (
        PRICE_SCALE as int),
{
    let window = transitions::window(s);
    assert(window.len() > 0);
    let sum = transitions::window_sum(s, now)->Ok_0;
    let weight = transitions::window_weight(s, now);
    twap::law_average_lies_between_prices(window, now, low, high);
    let current = twap::quotient(sum, weight);
    law_quoted_price_is_the_scaled_baseline(s, now, current);
    let scale = PRICE_SCALE as int;
    assert(low / scale <= current / scale <= high / scale);
}

/// Without observations, and where the newest is stale, readers get the fallback price if one is set.
pub proof fn law_fallback_price_is_quoted(s: OracleModel, now: u32)
    requires
        s.observations.len() == 0 || transitions::is_stale(s, now),
        s.fallback_price is Some,
    ensures
        transitions::quoted_price(s, now) == Ok::<int, OracleFailure>(s.fallback_price->0 as int),
{
}

/// A price that is just reported by itself is what readers get, taken out of its scale.
pub proof fn law_single_observation_is_quoted(s: OracleModel, now: u32)
    requires
        settings_well_formed(s),
        s.observations.len() == 1,
        s.observations[0].price > 0,
        !transitions::is_stale(s, now),
        transitions::quoted_price(s, now) is Ok,
    ensures
        transitions::quoted_price(s, now) == Ok::<int, OracleFailure>(
            s.observations[0].price as int / (PRICE_SCALE as int),
        ),
{
    let p = s.observations[0].price as int;
    assert(transitions::window(s) =~= s.observations);
    law_quoted_price_lies_between_prices(s, now, p, p);
}

/// A source is refused where there are too many already, and the oracle itself always.
pub proof fn law_source_limits(s: OracleModel, ctx: CallContext, admin: Address, source: Address)
    requires
        transitions::admin_refusal(s, admin) is None,
        !transitions::is_source(s, source),
    ensures
        source == ctx.contract ==> transitions::add_source_step(s, ctx, admin, source) == Err::<
            (OracleModel, crate::oracle::events::OracleReceipt<Seq<u8>>),
            OracleFailure,
        >(OracleFailure::Error(OracleError::CannotRegisterOracleAsItsOwnSource)),
        source != ctx.contract && s.sources.len() >= MAX_SOURCE_ORACLES
            ==> transitions::add_source_step(s, ctx, admin, source) == Err::<
            (OracleModel, crate::oracle::events::OracleReceipt<Seq<u8>>),
            OracleFailure,
        >(OracleFailure::Error(OracleError::SourceOracleLimitExceeded)),
{
}

} // verus!
