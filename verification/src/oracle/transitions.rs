//! What each call does to the state of the price oracle, and when it is refused.

use vstd::prelude::*;

use crate::address::Address;
use crate::arithmetic;
use crate::context::{CallContext, TokenTransfer};
use crate::oracle::aggregate;
use crate::oracle::aggregate::{SourceReply, SourceSkip};
use crate::oracle::deviation;
use crate::oracle::error::{OracleError, OracleFailure, OracleTrap};
use crate::oracle::events::{OracleEvent, OracleReceipt};
use crate::oracle::ring;
use crate::oracle::ring::{PriceObservation, MAX_OBSERVATIONS};
use crate::oracle::state::{
    OracleModel, SlashModel, StakingConfig, DEFAULT_STALENESS_THRESHOLD, DEFAULT_TWAP_WINDOW,
    MAX_SOURCE_ORACLES,
};
use crate::oracle::twap;
use crate::oracle::twap::PRICE_SCALE;

verus! {

/// The outcome of a call: the next state and what is announced and asked for, or why it is refused.
pub type Step = Result<(OracleModel, OracleReceipt<Seq<u8>>), OracleFailure>;

/// A call on an oracle in state `before` returned `r` and left the state `after`, as `step` says. A
/// refused call leaves the state as it was.
pub open spec fn follows(
    step: Step,
    before: OracleModel,
    after: OracleModel,
    r: Result<OracleReceipt<Vec<u8>>, OracleFailure>,
) -> bool {
    match step {
        Ok((next, receipt)) => r matches Ok(given) && given@ == receipt && after == next,
        Err(failure) => r == Err::<OracleReceipt<Vec<u8>>, OracleFailure>(failure) && after
            == before,
    }
}

/// A receipt that holds nothing.
pub open spec fn silence() -> OracleReceipt<Seq<u8>> {
    OracleReceipt { event: None, transfer: None }
}

/// A receipt that holds an event and nothing else.
pub open spec fn announcement(event: OracleEvent<Seq<u8>>) -> OracleReceipt<Seq<u8>> {
    OracleReceipt { event: Some(event), transfer: None }
}

/// Why a call is refused that only the admin may make.
pub open spec fn admin_refusal(s: OracleModel, admin: Address) -> Option<OracleFailure> {
    match s.admin {
        None => Some(OracleFailure::Trap(OracleTrap::NotInitialized)),
        Some(a) => if a != admin {
            Some(OracleFailure::Error(OracleError::OnlyAdminCanPerformThisAction))
        } else {
            None
        },
    }
}

/// The address may report prices.
pub open spec fn is_reporter(s: OracleModel, a: Address) -> bool {
    s.reporters.contains_key(a) && s.reporters[a]
}

/// The stake of a reporter.
pub open spec fn stake_of(s: OracleModel, reporter: Address) -> i128 {
    if s.stakes.contains_key(reporter) {
        s.stakes[reporter]
    } else {
        0
    }
}

/// The least stake that a reporter has to have.
pub open spec fn min_stake(s: OracleModel) -> i128 {
    match s.staking {
        Some(config) => config.min_stake,
        None => 0,
    }
}

/// The slash events of a reporter.
pub open spec fn slashes_of(s: OracleModel, reporter: Address) -> Seq<SlashModel> {
    if s.slash_histories.contains_key(reporter) {
        s.slash_histories[reporter]
    } else {
        Seq::empty()
    }
}

/// The address is registered as a source.
pub open spec fn is_source(s: OracleModel, a: Address) -> bool {
    s.source_registered.contains_key(a) && s.source_registered[a]
}

// Prices.

/// The observations that are averaged.
pub open spec fn window(s: OracleModel) -> Seq<PriceObservation> {
    ring::last_of(s.observations, s.twap_window as int)
}

/// The newest observation is too old.
pub open spec fn is_stale(s: OracleModel, now: u32) -> bool {
    now - s.observations.last().ledger > s.staleness_threshold
}

/// The sums that the average is the quotient of.
pub open spec fn window_sum(s: OracleModel, now: u32) -> Result<int, OracleTrap> {
    twap::weighted_sum(window(s), now, window(s).len() as int)
}

/// The weights that the average is divided by.
pub open spec fn window_weight(s: OracleModel, now: u32) -> int {
    twap::total_weight(window(s), now, window(s).len() as int)
}

/// The current price in the scale of reported prices, to hold new reports against. There is none
/// without observations and none where the newest is stale.
pub open spec fn baseline(s: OracleModel, now: u32) -> Result<Option<int>, OracleTrap> {
    if s.observations.len() == 0 || is_stale(s, now) {
        Ok(None)
    } else {
        match window_sum(s, now) {
            Err(t) => Err(t),
            Ok(sum) => if window(s).len() == 0 {
                Ok(None)
            } else {
                Ok(Some(twap::quotient(sum, window_weight(s, now))))
            },
        }
    }
}

/// The fallback price, or the given abort where there is none.
pub open spec fn fallback(s: OracleModel, otherwise: OracleTrap) -> Result<int, OracleFailure> {
    match s.fallback_price {
        Some(price) => Ok(price as int),
        None => Err(OracleFailure::Trap(otherwise)),
    }
}

/// The price that readers get: the time-weighted average, taken out of the scale of reported prices,
/// or the fallback price without observations and where the newest is stale.
pub open spec fn quoted_price(s: OracleModel, now: u32) -> Result<int, OracleFailure> {
    if s.observations.len() == 0 {
        fallback(s, OracleTrap::NoObservationsAndNoFallback)
    } else if is_stale(s, now) {
        fallback(s, OracleTrap::StaleAndNoFallback)
    } else {
        match window_sum(s, now) {
            Err(t) => Err(OracleFailure::Trap(t)),
            Ok(sum) => if window(s).len() == 0 {
                fallback(s, OracleTrap::ZeroWeightAndNoFallback)
            } else {
                Ok(twap::quotient(sum, window_weight(s, now) * PRICE_SCALE))
            },
        }
    }
}

/// Why `report_price` is refused, the comparison with the current price aside.
pub open spec fn report_refusal(
    s: OracleModel,
    reporter: Address,
    price: i128,
) -> Option<OracleFailure> {
    if !is_reporter(s, reporter) {
        Some(OracleFailure::Error(OracleError::NotAnAuthorisedReporter))
    } else if stake_of(s, reporter) < min_stake(s) {
        Some(OracleFailure::Error(OracleError::ReporterStakeBelowMinimum))
    } else if price <= 0 {
        Some(OracleFailure::Error(OracleError::PriceMustBePositive))
    } else {
        None
    }
}

/// A report is compared with the current price: there is a limit and enough of a history.
pub open spec fn breaker_active(s: OracleModel) -> bool {
    s.max_price_deviation_bps > 0 && s.observations.len() >= 2
}

/// The state with one more observation, in the next slot, and without the oldest where there are too
/// many.
pub open spec fn with_observation(s: OracleModel, observation: PriceObservation) -> OracleModel {
    OracleModel {
        observations: ring::last_of(
            s.observations.push(observation),
            MAX_OBSERVATIONS as int,
        ),
        slots: s.slots.update(s.next_slot as int, Some(observation)),
        next_slot: ring::slot_after(s.next_slot),
        ..s
    }
}

/// The outcome of a report that is taken.
pub open spec fn recorded(
    s: OracleModel,
    ctx: CallContext,
    reporter: Address,
    price: i128,
) -> Step {
    Ok(
        (
            with_observation(s, PriceObservation { price, reporter, ledger: ctx.sequence }),
            announcement(OracleEvent::PriceUpdated { reporter, price, ledger: ctx.sequence }),
        ),
    )
}

/// The outcome of `report_price`: the price becomes the newest observation, unless it deviates too
/// far from the current price; then it is announced as rejected and nothing changes.
pub open spec fn report_step(
    s: OracleModel,
    ctx: CallContext,
    reporter: Address,
    price: i128,
) -> Step {
    match report_refusal(s, reporter, price) {
        Some(f) => Err(f),
        None => if !breaker_active(s) {
            recorded(s, ctx, reporter, price)
        } else {
            match baseline(s, ctx.sequence) {
                Err(t) => Err(OracleFailure::Trap(t)),
                Ok(None) => recorded(s, ctx, reporter, price),
                Ok(Some(current)) => {
                    let bps = deviation::deviation_bps(price as int, current);
                    if bps > s.max_price_deviation_bps {
                        Ok(
                            (
                                s,
                                announcement(
                                    OracleEvent::PriceRejected {
                                        reporter,
                                        price,
                                        current_price: current as i128,
                                        deviation_bps: bps as u32,
                                    },
                                ),
                            ),
                        )
                    } else {
                        recorded(s, ctx, reporter, price)
                    }
                },
            }
        },
    }
}

/// The outcome of `get_aggregated_price`, given the replies of the sources: the price and the sources
/// that were left out. Without sources it is the oracle's own price.
pub open spec fn aggregated_price(
    s: OracleModel,
    now: u32,
    replies: Seq<SourceReply>,
) -> Result<(int, Seq<SourceSkip>), OracleFailure> {
    if s.sources.len() == 0 {
        match quoted_price(s, now) {
            Ok(price) => Ok((price, Seq::empty())),
            Err(f) => Err(f),
        }
    } else if exists|i: int| 0 <= i < s.sources.len() && (#[trigger] s.sources[i]) is Account {
        Err(OracleFailure::Trap(OracleTrap::SourceIsNoContract))
    } else {
        match aggregate::aggregation(replies) {
            Ok(price) => Ok((price, aggregate::skipped(s.sources, replies))),
            Err(e) => Err(OracleFailure::Error(e)),
        }
    }
}

/// What `get_aggregated_price` returned agrees with an outcome.
pub open spec fn gives(
    outcome: Result<(int, Seq<SourceSkip>), OracleFailure>,
    r: Result<(i128, Vec<SourceSkip>), OracleFailure>,
) -> bool {
    match outcome {
        Ok((price, skips)) => r matches Ok((p, given)) && p == price && given@ == skips,
        Err(f) => r == Err::<(i128, Vec<SourceSkip>), OracleFailure>(f),
    }
}

// Administration.

/// The state after `initialize`: the first observation goes to the first slot.
pub open spec fn initialized(s: OracleModel, admin: Address) -> OracleModel {
    OracleModel {
        admin: Some(admin),
        observations: Seq::empty(),
        next_slot: 0,
        twap_window: DEFAULT_TWAP_WINDOW,
        staleness_threshold: DEFAULT_STALENESS_THRESHOLD,
        ..s
    }
}

/// The outcome of `add_reporter`: the address may report prices.
pub open spec fn add_reporter_step(s: OracleModel, admin: Address, reporter: Address) -> Step {
    match admin_refusal(s, admin) {
        Some(f) => Err(f),
        None => Ok(
            (
                OracleModel { reporters: s.reporters.insert(reporter, true), ..s },
                announcement(OracleEvent::ReporterAdded { admin, reporter }),
            ),
        ),
    }
}

/// The outcome of `remove_reporter`: the address may no longer report prices.
pub open spec fn remove_reporter_step(s: OracleModel, admin: Address, reporter: Address) -> Step {
    match admin_refusal(s, admin) {
        Some(f) => Err(f),
        None => Ok(
            (
                OracleModel { reporters: s.reporters.remove(reporter), ..s },
                announcement(OracleEvent::ReporterRemoved { admin, reporter }),
            ),
        ),
    }
}

/// The outcome of `set_fallback_price`.
pub open spec fn fallback_step(s: OracleModel, admin: Address, price: i128) -> Step {
    if let Some(f) = admin_refusal(s, admin) {
        Err(f)
    } else if price <= 0 {
        Err(OracleFailure::Error(OracleError::FallbackPriceMustBePositive))
    } else {
        Ok((OracleModel { fallback_price: Some(price), ..s }, silence()))
    }
}

/// The outcome of `set_max_price_deviation`.
pub open spec fn max_deviation_step(s: OracleModel, admin: Address, deviation_bps: u32) -> Step {
    match admin_refusal(s, admin) {
        Some(f) => Err(f),
        None => Ok((OracleModel { max_price_deviation_bps: deviation_bps, ..s }, silence())),
    }
}

/// The outcome of `set_twap_window`.
pub open spec fn twap_window_step(s: OracleModel, admin: Address, window: u32) -> Step {
    if let Some(f) = admin_refusal(s, admin) {
        Err(f)
    } else if window == 0 {
        Err(OracleFailure::Error(OracleError::TwapWindowMustBeAtLeastOne))
    } else if window > MAX_OBSERVATIONS {
        Err(OracleFailure::Error(OracleError::TwapWindowExceedsMaximum))
    } else if window > s.staleness_threshold {
        Err(OracleFailure::Error(OracleError::TwapWindowExceedsStalenessThreshold))
    } else {
        Ok(
            (
                OracleModel { twap_window: window, ..s },
                announcement(OracleEvent::TwapWindowSet { admin, window }),
            ),
        )
    }
}

/// The outcome of `set_staleness_threshold`.
pub open spec fn staleness_step(s: OracleModel, admin: Address, threshold: u32) -> Step {
    if let Some(f) = admin_refusal(s, admin) {
        Err(f)
    } else if threshold < s.twap_window {
        Err(OracleFailure::Error(OracleError::StalenessThresholdMustBeAtLeastTwapWindow))
    } else if threshold < MAX_OBSERVATIONS {
        Err(OracleFailure::Error(OracleError::InvalidConfiguration))
    } else {
        Ok(
            (
                OracleModel { staleness_threshold: threshold, ..s },
                announcement(OracleEvent::StalenessThresholdSet { admin, threshold }),
            ),
        )
    }
}

// Sources.

/// The outcome of `add_source_oracle`: the address is registered, unless it already is.
pub open spec fn add_source_step(
    s: OracleModel,
    ctx: CallContext,
    admin: Address,
    source: Address,
) -> Step {
    if let Some(f) = admin_refusal(s, admin) {
        Err(f)
    } else if is_source(s, source) {
        Ok((s, silence()))
    } else if source == ctx.contract {
        Err(OracleFailure::Error(OracleError::CannotRegisterOracleAsItsOwnSource))
    } else if s.sources.len() >= MAX_SOURCE_ORACLES {
        Err(OracleFailure::Error(OracleError::SourceOracleLimitExceeded))
    } else {
        Ok(
            (
                OracleModel {
                    source_registered: s.source_registered.insert(source, true),
                    sources: s.sources.push(source),
                    ..s
                },
                silence(),
            ),
        )
    }
}

/// A list without the first occurrence of an item.
pub open spec fn without_first(list: Seq<Address>, item: Address) -> Seq<Address>
    decreases list.len(),
{
    if list.len() == 0 {
        list
    } else if list[0] == item {
        list.drop_first()
    } else {
        seq![list[0]] + without_first(list.drop_first(), item)
    }
}

/// The outcome of `remove_source_oracle`: the address is no longer registered.
pub open spec fn remove_source_step(s: OracleModel, admin: Address, source: Address) -> Step {
    if let Some(f) = admin_refusal(s, admin) {
        Err(f)
    } else if !is_source(s, source) {
        Ok((s, silence()))
    } else {
        Ok(
            (
                OracleModel {
                    source_registered: s.source_registered.remove(source),
                    sources: without_first(s.sources, source),
                    ..s
                },
                silence(),
            ),
        )
    }
}

// Stakes.

/// The outcome of `configure_staking`. No stake changes by it.
pub open spec fn configure_step(s: OracleModel, admin: Address, config: StakingConfig) -> Step {
    if let Some(f) = admin_refusal(s, admin) {
        Err(f)
    } else if config.min_stake <= 0 {
        Err(OracleFailure::Error(OracleError::MinimumStakeMustBePositive))
    } else if config.unstake_cooldown == 0 {
        Err(OracleFailure::Error(OracleError::UnstakeCooldownMustBePositive))
    } else {
        Ok((OracleModel { staking: Some(config), ..s }, silence()))
    }
}

/// Why `stake` is refused.
pub open spec fn stake_refusal(
    s: OracleModel,
    ctx: CallContext,
    reporter: Address,
    amount: i128,
) -> Option<OracleFailure> {
    if amount <= 0 {
        Some(OracleFailure::Error(OracleError::StakeAmountMustBePositive))
    } else if !is_reporter(s, reporter) {
        Some(OracleFailure::Error(OracleError::NotAnAuthorisedReporter))
    } else if s.staking is None {
        Some(OracleFailure::Trap(OracleTrap::StakingNotConfigured))
    } else if !arithmetic::fits_i128(stake_of(s, reporter) + amount) {
        Some(OracleFailure::Trap(OracleTrap::ReporterStakeOverflow))
    } else if ctx.sequence + s.staking->0.unstake_cooldown > u32::MAX {
        Some(OracleFailure::Trap(OracleTrap::StakeCooldownOverflow))
    } else {
        None
    }
}

/// The outcome of `stake`: the stake grows by the amount, which is to move from the reporter to the
/// contract, and is locked for the cooldown.
pub open spec fn stake_step(
    s: OracleModel,
    ctx: CallContext,
    reporter: Address,
    amount: i128,
) -> Step {
    match stake_refusal(s, ctx, reporter, amount) {
        Some(f) => Err(f),
        None => {
            let total = (stake_of(s, reporter) + amount) as i128;
            let available_at = (ctx.sequence + s.staking->0.unstake_cooldown) as u32;
            Ok(
                (
                    OracleModel {
                        stakes: s.stakes.insert(reporter, total),
                        stake_available_at: s.stake_available_at.insert(reporter, available_at),
                        ..s
                    },
                    OracleReceipt {
                        event: Some(
                            OracleEvent::StakeDeposited { reporter, amount, total, available_at },
                        ),
                        transfer: Some(
                            TokenTransfer {
                                token: s.staking->0.token,
                                from: reporter,
                                to: ctx.contract,
                                amount,
                            },
                        ),
                    },
                ),
            )
        },
    }
}

/// Why `unstake` is refused.
pub open spec fn unstake_refusal(
    s: OracleModel,
    ctx: CallContext,
    reporter: Address,
) -> Option<OracleFailure> {
    if stake_of(s, reporter) <= 0 {
        Some(OracleFailure::Error(OracleError::NoReporterStake))
    } else if !s.stake_available_at.contains_key(reporter) {
        Some(OracleFailure::Trap(OracleTrap::StakeCooldownNotSet))
    } else if ctx.sequence < s.stake_available_at[reporter] {
        Some(OracleFailure::Error(OracleError::UnstakeCooldownNotReached))
    } else if s.staking is None {
        Some(OracleFailure::Trap(OracleTrap::StakingNotConfigured))
    } else {
        None
    }
}

/// The outcome of `unstake`: the whole stake is to move back to the reporter.
pub open spec fn unstake_step(s: OracleModel, ctx: CallContext, reporter: Address) -> Step {
    match unstake_refusal(s, ctx, reporter) {
        Some(f) => Err(f),
        None => {
            let amount = stake_of(s, reporter);
            Ok(
                (
                    OracleModel {
                        stakes: s.stakes.insert(reporter, 0),
                        stake_available_at: s.stake_available_at.remove(reporter),
                        ..s
                    },
                    OracleReceipt {
                        event: Some(OracleEvent::StakeWithdrawn { reporter, amount }),
                        transfer: Some(
                            TokenTransfer {
                                token: s.staking->0.token,
                                from: ctx.contract,
                                to: reporter,
                                amount,
                            },
                        ),
                    },
                ),
            )
        },
    }
}

/// Why `slash` is refused.
pub open spec fn slash_refusal(
    s: OracleModel,
    admin: Address,
    reporter: Address,
    amount: i128,
) -> Option<OracleFailure> {
    if let Some(f) = admin_refusal(s, admin) {
        Some(f)
    } else if amount <= 0 {
        Some(OracleFailure::Error(OracleError::SlashAmountMustBePositive))
    } else if amount > stake_of(s, reporter) {
        Some(OracleFailure::Error(OracleError::SlashAmountExceedsReporterStake))
    } else if s.staking is None {
        Some(OracleFailure::Trap(OracleTrap::StakingNotConfigured))
    } else {
        None
    }
}

/// The outcome of `slash`: the stake shrinks by the amount, which is to move to the treasury, and the
/// reporter's history has one more event.
pub open spec fn slash_step(
    s: OracleModel,
    ctx: CallContext,
    admin: Address,
    reporter: Address,
    amount: i128,
    reason: Seq<u8>,
) -> Step {
    match slash_refusal(s, admin, reporter, amount) {
        Some(f) => Err(f),
        None => {
            let remaining = (stake_of(s, reporter) - amount) as i128;
            let slash = SlashModel { amount, reason, ledger: ctx.sequence };
            Ok(
                (
                    OracleModel {
                        stakes: s.stakes.insert(reporter, remaining),
                        slash_histories: s.slash_histories.insert(
                            reporter,
                            slashes_of(s, reporter).push(slash),
                        ),
                        ..s
                    },
                    OracleReceipt {
                        event: Some(
                            OracleEvent::StakeSlashed { reporter, amount, remaining, reason },
                        ),
                        transfer: Some(
                            TokenTransfer {
                                token: s.staking->0.token,
                                from: ctx.contract,
                                to: s.staking->0.treasury,
                                amount,
                            },
                        ),
                    },
                ),
            )
        },
    }
}

} // verus!
