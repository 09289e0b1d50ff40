//! What each call on the price oracle is for: when it goes through, why it is refused otherwise, what
//! it changes, announces and moves, and which price readers get, told by the arguments and the
//! observations alone.

use vstd::prelude::*;

use crate::address::Address;
use crate::context::{CallContext, TokenTransfer};
use crate::oracle::aggregate;
use crate::oracle::aggregate::{SourceReply, SourceSkip};
use crate::oracle::deviation;
use crate::oracle::error::{OracleError, OracleFailure, OracleTrap};
use crate::oracle::events::{OracleEvent, OracleReceipt};
use crate::oracle::ring::{PriceObservation, MAX_OBSERVATIONS};
use crate::oracle::state::{
    OracleModel, SlashModel, StakingConfig, DEFAULT_STALENESS_THRESHOLD, DEFAULT_TWAP_WINDOW,
    DEFAULT_UNSTAKE_COOLDOWN, MAX_SOURCE_ORACLES,
};
use crate::oracle::transitions;
use crate::oracle::twap;
use crate::oracle::twap::PRICE_SCALE;

verus! {

/// The limits of the oracle: 20 observations and 7 sources are kept, 10 observations are averaged and
/// are stale after 120 ledgers unless it is told otherwise, and prices are reported in units of a ten
/// millionth.
pub proof fn law_limits_of_the_oracle()
    ensures
        MAX_OBSERVATIONS == 20,
        MAX_SOURCE_ORACLES == 7,
        DEFAULT_TWAP_WINDOW == 10,
        DEFAULT_STALENESS_THRESHOLD == 120,
        DEFAULT_UNSTAKE_COOLDOWN == 120_960,
        PRICE_SCALE == 10_000_000,
{
}

/// The call was refused with an error.
pub open spec fn fails(step: transitions::Step, e: OracleError) -> bool {
    step matches Err(f) && f == OracleFailure::Error(e)
}

/// The call was aborted.
pub open spec fn aborts(step: transitions::Step, t: OracleTrap) -> bool {
    step matches Err(f) && f == OracleFailure::Trap(t)
}

/// The call went through: it leads to the state `next`, and announces and moves what is given.
pub open spec fn leads_to(
    step: transitions::Step,
    next: OracleModel,
    event: Option<OracleEvent<Seq<u8>>>,
    transfer: Option<TokenTransfer>,
) -> bool {
    step matches Ok((n, receipt)) && n == next && receipt.event == event && receipt.transfer
        == transfer
}

/// A call that only the admin may make is refused to others, and aborted before there is one.
pub open spec fn guarded(s: OracleModel, admin: Address, step: transitions::Step) -> bool {
    &&& s.admin is None ==> aborts(step, OracleTrap::NotInitialized)
    &&& s.admin matches Some(a) ==> (a != admin ==> fails(
        step,
        OracleError::OnlyAdminCanPerformThisAction,
    ))
}

/// What a call returned and left behind is what its step says: a call that goes through returns the
/// receipt and leaves the next state, and a refused one returns the reason and changes nothing.
pub proof fn law_calls_do_what_their_steps_say(
    step: transitions::Step,
    before: OracleModel,
    after: OracleModel,
    r: Result<OracleReceipt<Vec<u8>>, OracleFailure>,
)
    requires
        transitions::follows(step, before, after, r),
    ensures
        step is Ok <==> r is Ok,
        step is Ok ==> r->Ok_0@ == step->Ok_0.1 && after == step->Ok_0.0,
        step is Err ==> r->Err_0 == step->Err_0 && after == before,
{
}

/// The observations that are averaged are the newest, as many as the window holds or as there are.
pub proof fn law_which_observations_are_averaged(s: OracleModel, k: int)
    ensures
        ({
            let w = transitions::window(s);
            &&& w.len() == if s.observations.len() <= s.twap_window {
                s.observations.len() as int
            } else {
                s.twap_window as int
            }
            &&& 0 <= k < w.len() ==> w[k] == s.observations[s.observations.len() - w.len() + k]
        }),
{
}

/// The newest observation is stale when it is older than the threshold.
pub open spec fn too_old(s: OracleModel, now: u32) -> bool {
    s.observations[s.observations.len() - 1].ledger + s.staleness_threshold < now
}

/// The sum of the weighted prices of the averaged observations, and that of their weights.
pub open spec fn sums(s: OracleModel, now: u32) -> (Result<int, OracleTrap>, int) {
    let w = transitions::window(s);
    (twap::weighted_sum(w, now, w.len() as int), twap::total_weight(w, now, w.len() as int))
}

/// There is a current price to hold reports against whenever there is an observation, the newest one
/// is not stale and at least one is averaged: it is the average, rounded toward zero, or the call is
/// aborted because the sum does not fit. Without observations and with a stale one there is none.
pub proof fn law_when_there_is_a_current_price(s: OracleModel, now: u32)
    ensures
        ({
            let current = transitions::baseline(s, now);
            let (sum, weight) = sums(s, now);
            let fresh = s.observations.len() > 0 && !too_old(s, now);
            &&& !fresh ==> current == Ok::<Option<int>, OracleTrap>(None)
            &&& fresh && s.twap_window >= 1 ==> weight >= 1
            &&& fresh && s.twap_window >= 1 && sum is Err ==> current == Err::<
                Option<int>,
                OracleTrap,
            >(sum->Err_0)
            &&& fresh && s.twap_window >= 1 && sum is Ok ==> current is Ok && current->Ok_0 is Some
                && is_quotient(sum->Ok_0, weight, current->Ok_0->0)
            &&& fresh && s.twap_window == 0 ==> current == Ok::<Option<int>, OracleTrap>(None)
        }),
{
    let w = transitions::window(s);
    twap::lemma_total_weight_bounds(w, now, w.len() as int);
    if w.len() > 0 {
        twap::law_what_a_quotient_is(
            match sums(s, now).0 {
                Ok(sum) => sum,
                Err(_) => 0,
            },
            sums(s, now).1,
        );
    }
}

/// `q` is `a` divided by `b`, rounded toward zero.
pub open spec fn is_quotient(a: int, b: int, q: int) -> bool {
    if a >= 0 {
        q * b <= a < q * b + b
    } else {
        q * b - b < a <= q * b
    }
}

/// Readers get the average of the observations in whole units, that is without the scale of reported
/// prices, rounded toward zero. Without observations, with a stale one, and where nothing is averaged,
/// they get the fallback price, or are told which of these holds where there is none.
pub proof fn law_which_price_readers_get(s: OracleModel, now: u32)
    ensures
        ({
            let price = transitions::quoted_price(s, now);
            let (sum, weight) = sums(s, now);
            let none = s.observations.len() == 0;
            let stale = !none && too_old(s, now);
            let idle = !none && !stale && s.twap_window == 0;
            let fresh = !none && !stale && s.twap_window >= 1;
            &&& none || stale || idle ==> (s.fallback_price matches Some(p) ==> price == Ok::<
                int,
                OracleFailure,
            >(p as int))
            &&& s.fallback_price is None ==> {
                &&& none ==> price == Err::<int, OracleFailure>(
                    OracleFailure::Trap(OracleTrap::NoObservationsAndNoFallback),
                )
                &&& stale ==> price == Err::<int, OracleFailure>(
                    OracleFailure::Trap(OracleTrap::StaleAndNoFallback),
                )
                &&& idle ==> price == Err::<int, OracleFailure>(
                    OracleFailure::Trap(OracleTrap::ZeroWeightAndNoFallback),
                )
            }
            &&& fresh && sum is Err ==> price == Err::<int, OracleFailure>(
                OracleFailure::Trap(sum->Err_0),
            )
            &&& fresh && sum is Ok ==> price is Ok && is_quotient(
                sum->Ok_0,
                weight * 10_000_000,
                price->Ok_0,
            )
        }),
{
    let w = transitions::window(s);
    twap::lemma_total_weight_bounds(w, now, w.len() as int);
    if w.len() > 0 {
        let weight = sums(s, now).1;
        twap::law_what_a_quotient_is(
            match sums(s, now).0 {
                Ok(sum) => sum,
                Err(_) => 0,
            },
            weight * 10_000_000,
        );
    }
}

/// A report is taken from a reporter with enough of a stake and a positive price, unless the breaker is
/// set, there are two observations to compare with, there is a current price, and the new one deviates
/// further from it than allowed. Such a report is announced as rejected and changes nothing. Otherwise
/// the reason for the refusal is the first that applies.
pub proof fn law_what_a_report_does(
    s: OracleModel,
    ctx: CallContext,
    reporter: Address,
    price: i128,
)
    ensures
        ({
            let step = transitions::report_step(s, ctx, reporter, price);
            let known = s.reporters.contains_key(reporter) && s.reporters[reporter];
            let staked = known && (s.staking matches Some(c) ==> stake(s, reporter)
                >= c.min_stake) && (s.staking is None ==> stake(s, reporter) >= 0);
            let sound = staked && price > 0;
            let compared = s.max_price_deviation_bps > 0 && s.observations.len() >= 2;
            let current = transitions::baseline(s, ctx.sequence);
            let bps = deviation::deviation_bps(price as int, current->Ok_0->0);
            let observation = PriceObservation { price, reporter, ledger: ctx.sequence };
            let all = s.observations.push(observation);
            let taken = OracleModel {
                observations: if all.len() > 20 {
                    all.subrange(all.len() - 20, all.len() as int)
                } else {
                    all
                },
                slots: s.slots.update(s.next_slot as int, Some(observation)),
                next_slot: ((s.next_slot + 1) % 20) as u32,
                ..s
            };
            &&& !known ==> fails(step, OracleError::NotAnAuthorisedReporter)
            &&& known && !staked ==> fails(step, OracleError::ReporterStakeBelowMinimum)
            &&& staked && !sound ==> fails(step, OracleError::PriceMustBePositive)
            &&& sound && compared && current is Err ==> aborts(step, current->Err_0)
            &&& sound && compared && current is Ok && current->Ok_0 is Some && bps
                > s.max_price_deviation_bps ==> leads_to(
                step,
                s,
                Some(
                    OracleEvent::PriceRejected {
                        reporter,
                        price,
                        current_price: current->Ok_0->0 as i128,
                        deviation_bps: bps as u32,
                    },
                ),
                None,
            )
            &&& sound && (!compared || (current is Ok && (current->Ok_0 is None || bps
                <= s.max_price_deviation_bps))) ==> leads_to(
                step,
                taken,
                Some(OracleEvent::PriceUpdated { reporter, price, ledger: ctx.sequence }),
                None,
            )
        }),
{
}

/// With a limit, two observations and a newest one that is not stale, no report is recorded whose
/// deviation from the average is beyond the limit.
pub proof fn law_no_outlier_is_recorded(
    s: OracleModel,
    ctx: CallContext,
    reporter: Address,
    price: i128,
    average: int,
)
    requires
        s.max_price_deviation_bps > 0,
        s.twap_window >= 1,
        s.observations.len() >= 2,
        !too_old(s, ctx.sequence),
        sums(s, ctx.sequence).0 is Ok,
        is_quotient(sums(s, ctx.sequence).0->Ok_0, sums(s, ctx.sequence).1, average),
        deviation::deviation_bps(price as int, average) > s.max_price_deviation_bps,
        transitions::report_step(s, ctx, reporter, price) is Ok,
    ensures
        transitions::report_step(s, ctx, reporter, price)->Ok_0.0 == s,
{
    law_when_there_is_a_current_price(s, ctx.sequence);
    let (sum, weight) = sums(s, ctx.sequence);
    let current = transitions::baseline(s, ctx.sequence)->Ok_0->0;
    lemma_one_quotient(sum->Ok_0, weight, current, average);
}

proof fn lemma_one_quotient(a: int, b: int, p: int, q: int)
    requires
        b > 0,
        is_quotient(a, b, p),
        is_quotient(a, b, q),
    ensures
        p == q,
{
    assert(p == q) by (nonlinear_arith)
        requires
            b > 0,
            a >= 0 ==> p * b <= a < p * b + b && q * b <= a < q * b + b,
            a < 0 ==> p * b - b < a <= p * b && q * b - b < a <= q * b,
    ;
}

/// The stake of a reporter, which is nothing where none was ever put in.
pub open spec fn stake(s: OracleModel, reporter: Address) -> i128 {
    if s.stakes.contains_key(reporter) {
        s.stakes[reporter]
    } else {
        0
    }
}

/// What is read of a reporter is what is stored, or nothing.
pub proof fn law_what_is_read_of_a_reporter(s: OracleModel, a: Address)
    ensures
        transitions::stake_of(s, a) == stake(s, a),
        transitions::is_reporter(s, a) <==> s.reporters.contains_key(a) && s.reporters[a],
        transitions::is_source(s, a) <==> s.source_registered.contains_key(a)
            && s.source_registered[a],
        s.slash_histories.contains_key(a) ==> transitions::slashes_of(s, a)
            == s.slash_histories[a],
        !s.slash_histories.contains_key(a) ==> transitions::slashes_of(s, a) == Seq::<
            SlashModel,
        >::empty(),
        s.staking matches Some(c) ==> transitions::min_stake(s) == c.min_stake,
        s.staking is None ==> transitions::min_stake(s) == 0,
{
}

/// The aggregate is that of the replies, with the skipped sources; without sources it is the own price,
/// and a source that is no contract aborts the call.
pub proof fn law_what_an_aggregate_is(s: OracleModel, now: u32, replies: Seq<SourceReply>)
    ensures
        ({
            let outcome = transitions::aggregated_price(s, now, replies);
            let own = transitions::quoted_price(s, now);
            let contracts = forall|i: int|
                0 <= i < s.sources.len() ==> (#[trigger] s.sources[i]) is Contract;
            &&& s.sources.len() == 0 && own is Ok ==> outcome == Ok::<
                (int, Seq<SourceSkip>),
                OracleFailure,
            >((own->Ok_0, Seq::empty()))
            &&& s.sources.len() == 0 && own is Err ==> outcome == Err::<
                (int, Seq<SourceSkip>),
                OracleFailure,
            >(own->Err_0)
            &&& s.sources.len() > 0 && !contracts ==> outcome == Err::<
                (int, Seq<SourceSkip>),
                OracleFailure,
            >(OracleFailure::Trap(OracleTrap::SourceIsNoContract))
            &&& s.sources.len() > 0 && contracts ==> match aggregate::aggregation(replies) {
                Ok(price) => outcome == Ok::<(int, Seq<SourceSkip>), OracleFailure>(
                    (price, aggregate::skipped(s.sources, replies)),
                ),
                Err(e) => outcome == Err::<(int, Seq<SourceSkip>), OracleFailure>(
                    OracleFailure::Error(e),
                ),
            }
        }),
{
    if !(forall|i: int| 0 <= i < s.sources.len() ==> (#[trigger] s.sources[i]) is Contract) {
        let i = choose|i: int| 0 <= i < s.sources.len() && !((#[trigger] s.sources[i]) is Contract);
        assert(s.sources[i] is Account);
    }
}

/// What is returned of an aggregate is the price and the skipped sources, or the reason why there is
/// none.
pub proof fn law_what_is_returned_of_an_aggregate(
    outcome: Result<(int, Seq<SourceSkip>), OracleFailure>,
    r: Result<(i128, Vec<SourceSkip>), OracleFailure>,
)
    requires
        transitions::gives(outcome, r),
    ensures
        outcome is Ok <==> r is Ok,
        outcome is Ok ==> r->Ok_0.0 == outcome->Ok_0.0 && r->Ok_0.1@ == outcome->Ok_0.1,
        outcome is Err ==> r->Err_0 == outcome->Err_0,
{
}

/// Each source was asked for itself: there is a reply for every source, in their order, and it came
/// back from that source.
pub proof fn law_every_source_is_asked(sources: Seq<Address>, replies: Seq<SourceReply>, i: int)
    requires
        aggregate::answered(sources, replies),
        0 <= i < sources.len(),
    ensures
        replies.len() == sources.len(),
        sources[i] matches Address::Contract(hash) && crate::host::has_replied(
            hash@,
            "get_price"@,
            replies[i],
        ),
{
    assert(aggregate::has_answered(sources[i], replies[i]));
}

/// Initialization sets the admin, drops all observations, starts over at the first slot, and sets the
/// window and the threshold to 10 and 120.
pub proof fn law_what_initialization_does(s: OracleModel, admin: Address)
    ensures
        transitions::initialized(s, admin) == (OracleModel {
            admin: Some(admin),
            observations: Seq::empty(),
            next_slot: 0,
            twap_window: 10,
            staleness_threshold: 120,
            ..s
        }),
{
}

/// The admin lets an address report and takes it back again; both are announced.
pub proof fn law_what_the_admin_does_about_reporters(
    s: OracleModel,
    admin: Address,
    reporter: Address,
)
    ensures
        guarded(s, admin, transitions::add_reporter_step(s, admin, reporter)),
        guarded(s, admin, transitions::remove_reporter_step(s, admin, reporter)),
        s.admin == Some(admin) ==> leads_to(
            transitions::add_reporter_step(s, admin, reporter),
            OracleModel { reporters: s.reporters.insert(reporter, true), ..s },
            Some(OracleEvent::ReporterAdded { admin, reporter }),
            None,
        ),
        s.admin == Some(admin) ==> leads_to(
            transitions::remove_reporter_step(s, admin, reporter),
            OracleModel { reporters: s.reporters.remove(reporter), ..s },
            Some(OracleEvent::ReporterRemoved { admin, reporter }),
            None,
        ),
{
}

/// The admin sets a positive fallback price and any limit for deviations.
pub proof fn law_what_the_admin_does_about_prices(
    s: OracleModel,
    admin: Address,
    price: i128,
    bps: u32,
)
    ensures
        guarded(s, admin, transitions::fallback_step(s, admin, price)),
        guarded(s, admin, transitions::max_deviation_step(s, admin, bps)),
        s.admin == Some(admin) && price <= 0 ==> fails(
            transitions::fallback_step(s, admin, price),
            OracleError::FallbackPriceMustBePositive,
        ),
        s.admin == Some(admin) && price > 0 ==> leads_to(
            transitions::fallback_step(s, admin, price),
            OracleModel { fallback_price: Some(price), ..s },
            None,
            None,
        ),
        s.admin == Some(admin) ==> leads_to(
            transitions::max_deviation_step(s, admin, bps),
            OracleModel { max_price_deviation_bps: bps, ..s },
            None,
            None,
        ),
{
}

/// The admin sets the window to between 1 and 20 observations and no more than the threshold, and the
/// threshold to no less than the window and than 20 ledgers; both are announced.
pub proof fn law_what_the_admin_does_about_the_window(s: OracleModel, admin: Address, n: u32)
    ensures
        ({
            let window = transitions::twap_window_step(s, admin, n);
            let threshold = transitions::staleness_step(s, admin, n);
            let ok = s.admin == Some(admin);
            &&& guarded(s, admin, window)
            &&& guarded(s, admin, threshold)
            &&& ok && n == 0 ==> fails(window, OracleError::TwapWindowMustBeAtLeastOne)
            &&& ok && n > 20 ==> fails(window, OracleError::TwapWindowExceedsMaximum)
            &&& ok && 1 <= n <= 20 && n > s.staleness_threshold ==> fails(
                window,
                OracleError::TwapWindowExceedsStalenessThreshold,
            )
            &&& ok && 1 <= n <= 20 && n <= s.staleness_threshold ==> leads_to(
                window,
                OracleModel { twap_window: n, ..s },
                Some(OracleEvent::TwapWindowSet { admin, window: n }),
                None,
            )
            &&& ok && n < s.twap_window ==> fails(
                threshold,
                OracleError::StalenessThresholdMustBeAtLeastTwapWindow,
            )
            &&& ok && s.twap_window <= n < 20 ==> fails(
                threshold,
                OracleError::InvalidConfiguration,
            )
            &&& ok && n >= s.twap_window && n >= 20 ==> leads_to(
                threshold,
                OracleModel { staleness_threshold: n, ..s },
                Some(OracleEvent::StalenessThresholdSet { admin, threshold: n }),
                None,
            )
        }),
{
}

/// The admin registers up to 7 sources, none of them the oracle itself. A source that is registered
/// already stays, and a new one comes last.
pub proof fn law_what_the_addition_of_a_source_does(
    s: OracleModel,
    ctx: CallContext,
    admin: Address,
    source: Address,
)
    ensures
        ({
            let step = transitions::add_source_step(s, ctx, admin, source);
            let ok = s.admin == Some(admin);
            let already = s.source_registered.contains_key(source) && s.source_registered[source];
            &&& guarded(s, admin, step)
            &&& ok && already ==> leads_to(step, s, None, None)
            &&& ok && !already && source == ctx.contract ==> fails(
                step,
                OracleError::CannotRegisterOracleAsItsOwnSource,
            )
            &&& ok && !already && source != ctx.contract && s.sources.len() >= 7 ==> fails(
                step,
                OracleError::SourceOracleLimitExceeded,
            )
            &&& ok && !already && source != ctx.contract && s.sources.len() < 7 ==> leads_to(
                step,
                OracleModel {
                    source_registered: s.source_registered.insert(source, true),
                    sources: s.sources.push(source),
                    ..s
                },
                None,
                None,
            )
        }),
{
}

/// The admin removes a source: the first place where it stands in the list is closed, and the others
/// keep their order. One that is not registered changes nothing.
pub proof fn law_what_the_removal_of_a_source_does(
    s: OracleModel,
    admin: Address,
    source: Address,
    place: int,
)
    ensures
        ({
            let step = transitions::remove_source_step(s, admin, source);
            let ok = s.admin == Some(admin);
            let there = s.source_registered.contains_key(source) && s.source_registered[source];
            let first = 0 <= place < s.sources.len() && s.sources[place] == source && forall|k: int|
                0 <= k < place ==> #[trigger] s.sources[k] != source;
            let nowhere = forall|k: int|
                0 <= k < s.sources.len() ==> #[trigger] s.sources[k] != source;
            &&& guarded(s, admin, step)
            &&& ok && !there ==> leads_to(step, s, None, None)
            &&& ok && there && first ==> leads_to(
                step,
                OracleModel {
                    source_registered: s.source_registered.remove(source),
                    sources: s.sources.remove(place),
                    ..s
                },
                None,
                None,
            )
            &&& ok && there && nowhere ==> leads_to(
                step,
                OracleModel { source_registered: s.source_registered.remove(source), ..s },
                None,
                None,
            )
        }),
{
    if 0 <= place < s.sources.len() && s.sources[place] == source && forall|k: int|
        0 <= k < place ==> #[trigger] s.sources[k] != source {
        lemma_first_place_closed(s.sources, source, place);
    }
    if forall|k: int| 0 <= k < s.sources.len() ==> #[trigger] s.sources[k] != source {
        lemma_nothing_closed(s.sources, source);
    }
}

proof fn lemma_first_place_closed(list: Seq<Address>, item: Address, place: int)
    requires
        0 <= place < list.len(),
        list[place] == item,
        forall|k: int| 0 <= k < place ==> #[trigger] list[k] != item,
    ensures
        transitions::without_first(list, item) == list.remove(place),
    decreases list.len(),
{
    if place > 0 {
        let rest = list.drop_first();
        assert(list[0] != item);
        assert forall|k: int| 0 <= k < place - 1 implies #[trigger] rest[k] != item by {
            assert(rest[k] == list[k + 1]);
        }
        lemma_first_place_closed(rest, item, place - 1);
        assert(list.remove(place) =~= seq![list[0]] + rest.remove(place - 1));
    } else {
        assert(list.remove(0) =~= list.drop_first());
    }
}

proof fn lemma_nothing_closed(list: Seq<Address>, item: Address)
    requires
        forall|k: int| 0 <= k < list.len() ==> #[trigger] list[k] != item,
    ensures
        transitions::without_first(list, item) == list,
    decreases list.len(),
{
    if list.len() > 0 {
        let rest = list.drop_first();
        assert(list[0] != item);
        assert forall|k: int| 0 <= k < rest.len() implies #[trigger] rest[k] != item by {
            assert(rest[k] == list[k + 1]);
        }
        lemma_nothing_closed(rest, item);
        assert(list =~= seq![list[0]] + rest);
    }
}

/// The admin sets what reporters have to stake, for how long, and where slashed stakes go. The stake and
/// the time have to be positive, and no stake changes.
pub proof fn law_what_a_staking_configuration_does(
    s: OracleModel,
    admin: Address,
    config: StakingConfig,
)
    ensures
        ({
            let step = transitions::configure_step(s, admin, config);
            let ok = s.admin == Some(admin);
            &&& guarded(s, admin, step)
            &&& ok && config.min_stake <= 0 ==> fails(step, OracleError::MinimumStakeMustBePositive)
            &&& ok && config.min_stake > 0 && config.unstake_cooldown == 0 ==> fails(
                step,
                OracleError::UnstakeCooldownMustBePositive,
            )
            &&& ok && config.min_stake > 0 && config.unstake_cooldown > 0 ==> leads_to(
                step,
                OracleModel { staking: Some(config), ..s },
                None,
                None,
            )
        }),
{
}

/// A reporter adds a positive amount to its stake: the amount moves from the reporter to the contract,
/// the stake grows by it, and all of it is locked for the cooldown from now. Otherwise the reason for
/// the refusal is the first that applies.
pub proof fn law_what_a_deposit_does(
    s: OracleModel,
    ctx: CallContext,
    reporter: Address,
    amount: i128,
)
    ensures
        ({
            let step = transitions::stake_step(s, ctx, reporter, amount);
            let known = amount > 0 && s.reporters.contains_key(reporter) && s.reporters[reporter];
            let config = s.staking->0;
            let total = stake(s, reporter) + amount;
            let until = ctx.sequence + config.unstake_cooldown;
            let set = known && s.staking is Some;
            let fits = set && i128::MIN <= total <= i128::MAX;
            &&& amount <= 0 ==> fails(step, OracleError::StakeAmountMustBePositive)
            &&& amount > 0 && !known ==> fails(step, OracleError::NotAnAuthorisedReporter)
            &&& known && !set ==> aborts(step, OracleTrap::StakingNotConfigured)
            &&& set && !fits ==> aborts(step, OracleTrap::ReporterStakeOverflow)
            &&& fits && until > u32::MAX ==> aborts(step, OracleTrap::StakeCooldownOverflow)
            &&& fits && until <= u32::MAX ==> leads_to(
                step,
                OracleModel {
                    stakes: s.stakes.insert(reporter, total as i128),
                    stake_available_at: s.stake_available_at.insert(reporter, until as u32),
                    ..s
                },
                Some(
                    OracleEvent::StakeDeposited {
                        reporter,
                        amount,
                        total: total as i128,
                        available_at: until as u32,
                    },
                ),
                Some(
                    TokenTransfer {
                        token: config.token,
                        from: reporter,
                        to: ctx.contract,
                        amount,
                    },
                ),
            )
        }),
{
}

/// A reporter takes all of its stake back once its lock has ended: it moves from the contract to the
/// reporter, and nothing is left. Otherwise the reason for the refusal is the first that applies.
pub proof fn law_what_a_stake_withdrawal_does(s: OracleModel, ctx: CallContext, reporter: Address)
    ensures
        ({
            let step = transitions::unstake_step(s, ctx, reporter);
            let held = stake(s, reporter) > 0;
            let locked = held && s.stake_available_at.contains_key(reporter);
            let free = locked && ctx.sequence >= s.stake_available_at[reporter];
            &&& !held ==> fails(step, OracleError::NoReporterStake)
            &&& held && !locked ==> aborts(step, OracleTrap::StakeCooldownNotSet)
            &&& locked && !free ==> fails(step, OracleError::UnstakeCooldownNotReached)
            &&& free && s.staking is None ==> aborts(step, OracleTrap::StakingNotConfigured)
            &&& free && s.staking is Some ==> leads_to(
                step,
                OracleModel {
                    stakes: s.stakes.insert(reporter, 0),
                    stake_available_at: s.stake_available_at.remove(reporter),
                    ..s
                },
                Some(OracleEvent::StakeWithdrawn { reporter, amount: stake(s, reporter) }),
                Some(
                    TokenTransfer {
                        token: s.staking->0.token,
                        from: ctx.contract,
                        to: reporter,
                        amount: stake(s, reporter),
                    },
                ),
            )
        }),
{
}

/// The admin slashes a positive amount of a reporter's stake, and no more than there is: it moves from
/// the contract to the treasury, the stake shrinks by it, and the slash is added to the reporter's
/// history. Otherwise the reason for the refusal is the first that applies.
pub proof fn law_what_a_slash_does(
    s: OracleModel,
    ctx: CallContext,
    admin: Address,
    reporter: Address,
    amount: i128,
    reason: Seq<u8>,
)
    ensures
        ({
            let step = transitions::slash_step(s, ctx, admin, reporter, amount, reason);
            let ok = s.admin == Some(admin);
            let left = stake(s, reporter) - amount;
            let history = if s.slash_histories.contains_key(reporter) {
                s.slash_histories[reporter]
            } else {
                Seq::empty()
            };
            &&& guarded(s, admin, step)
            &&& ok && amount <= 0 ==> fails(step, OracleError::SlashAmountMustBePositive)
            &&& ok && amount > 0 && left < 0 ==> fails(
                step,
                OracleError::SlashAmountExceedsReporterStake,
            )
            &&& ok && amount > 0 && left >= 0 && s.staking is None ==> aborts(
                step,
                OracleTrap::StakingNotConfigured,
            )
            &&& ok && amount > 0 && left >= 0 && s.staking is Some ==> leads_to(
                step,
                OracleModel {
                    stakes: s.stakes.insert(reporter, left as i128),
                    slash_histories: s.slash_histories.insert(
                        reporter,
                        history.push(SlashModel { amount, reason, ledger: ctx.sequence }),
                    ),
                    ..s
                },
                Some(
                    OracleEvent::StakeSlashed {
                        reporter,
                        amount,
                        remaining: left as i128,
                        reason,
                    },
                ),
                Some(
                    TokenTransfer {
                        token: s.staking->0.token,
                        from: ctx.contract,
                        to: s.staking->0.treasury,
                        amount,
                    },
                ),
            )
        }),
{
}

/// Before the first call there is nothing but the default settings.
pub proof fn law_what_the_oracle_starts_with()
    ensures
        ({
            let s = crate::oracle::state::empty_state();
            &&& s.admin is None
            &&& s.observations.len() == 0
            &&& s.slots.len() == 20
            &&& forall|i: int| 0 <= i < 20 ==> (#[trigger] s.slots[i]) is None
            &&& s.next_slot == 0
            &&& s.reporters == Map::<Address, bool>::empty()
            &&& s.fallback_price is None
            &&& s.max_price_deviation_bps == 0
            &&& s.twap_window == 10
            &&& s.staleness_threshold == 120
            &&& s.source_registered == Map::<Address, bool>::empty()
            &&& s.sources.len() == 0
            &&& s.staking is None
            &&& s.stakes == Map::<Address, i128>::empty()
            &&& s.stake_available_at == Map::<Address, u32>::empty()
            &&& s.slash_histories == Map::<Address, Seq<SlashModel>>::empty()
        }),
{
}

} // verus!
