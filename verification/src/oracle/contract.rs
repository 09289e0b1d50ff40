//! The calls on the price oracle.
//!
//! Each call takes the state from one model to the next as `transitions` says. Who makes a call
//! has to be authenticated before: a call takes the addresses in its arguments for granted.

use soroban_sdk::Env;
use vstd::prelude::*;

use crate::address::{copy_addresses, Address};
use crate::bytes::copy_bytes;
use crate::context::{CallContext, TokenTransfer};
use crate::oracle::aggregate;
use crate::oracle::aggregate::{ask_for_price, SourceReply, SourceSkip};
use crate::oracle::deviation::calculate_deviation_bps;
use crate::oracle::error::{OracleError, OracleFailure, OracleTrap};
use crate::oracle::events::{OracleEvent, OracleReceipt};
use crate::oracle::ring::{PriceObservation, MAX_OBSERVATIONS};
use crate::oracle::state;
use crate::oracle::state::{
    copy_slashes, SimpleOracle, SlashEvent, SlashHistory, StakingConfig,
    DEFAULT_STALENESS_THRESHOLD, DEFAULT_TWAP_WINDOW, MAX_SOURCE_ORACLES,
};
use crate::oracle::transitions;
use crate::oracle::twap;
use crate::oracle::twap::{divide, weigh, PRICE_SCALE};

verus! {

/// A receipt that holds nothing.
fn no_news() -> (r: OracleReceipt<Vec<u8>>)
    ensures
        r@ == transitions::silence(),
{
    OracleReceipt { event: None, transfer: None }
}

/// A receipt that holds an event and nothing else.
fn announce(event: OracleEvent<Vec<u8>>) -> (r: OracleReceipt<Vec<u8>>)
    ensures
        r@ == transitions::announcement(event@),
{
    OracleReceipt { event: Some(event), transfer: None }
}

/// The list without the first occurrence of an item.
fn remove_first(list: &Vec<Address>, item: Address) -> (r: Vec<Address>)
    ensures
        r@ == transitions::without_first(list@, item),
{
    let mut i: usize = 0;
    while i < list.len()
        invariant
            i <= list.len(),
            forall|j: int| 0 <= j < i ==> list@[j] != item,
        decreases list.len() - i,
    {
        if list[i] == item {
            let mut out = copy_addresses(list);
            out.remove(i);
            proof {
                lemma_without_first_at(list@, item, i as int);
            }
            return out;
        }
        i = i + 1;
    }
    proof {
        lemma_without_first_absent(list@, item);
    }
    copy_addresses(list)
}

proof fn lemma_without_first_at(list: Seq<Address>, item: Address, i: int)
    requires
        0 <= i < list.len(),
        list[i] == item,
        forall|j: int| 0 <= j < i ==> list[j] != item,
    ensures
        transitions::without_first(list, item) == list.remove(i),
    decreases i,
{
    if i > 0 {
        let rest = list.drop_first();
        assert forall|j: int| 0 <= j < i - 1 implies rest[j] != item by {
            assert(rest[j] == list[j + 1]);
        }
        lemma_without_first_at(rest, item, i - 1);
        assert(list.remove(i) =~= seq![list[0]] + rest.remove(i - 1));
    } else {
        assert(list.remove(0) =~= list.drop_first());
    }
}

proof fn lemma_without_first_absent(list: Seq<Address>, item: Address)
    requires
        forall|j: int| 0 <= j < list.len() ==> list[j] != item,
    ensures
        transitions::without_first(list, item) == list,
    decreases list.len(),
{
    if list.len() > 0 {
        let rest = list.drop_first();
        assert forall|j: int| 0 <= j < rest.len() implies rest[j] != item by {
            assert(rest[j] == list[j + 1]);
        }
        lemma_without_first_absent(rest, item);
        assert(list =~= seq![list[0]] + rest);
    }
}

impl SimpleOracle {
    /// Whether `admin` is the admin.
    fn require_admin(&self, admin: &Address) -> (r: Result<(), OracleFailure>)
        ensures
            match transitions::admin_refusal(self@, *admin) {
                Some(f) => r == Err::<(), OracleFailure>(f),
                None => r == Ok::<(), OracleFailure>(()),
            },
    {
        match self.admin {
            None => Err(OracleFailure::Trap(OracleTrap::NotInitialized)),
            Some(stored) => if stored != *admin {
                Err(OracleFailure::Error(OracleError::OnlyAdminCanPerformThisAction))
            } else {
                Ok(())
            },
        }
    }

    /// Whether an address may report prices.
    fn is_reporter(&self, a: &Address) -> (r: bool)
        ensures
            r == transitions::is_reporter(self@, *a),
    {
        match self.reporters.get(a) {
            Some(b) => *b,
            None => false,
        }
    }

    /// Whether an address is registered as a source.
    fn is_source(&self, a: &Address) -> (r: bool)
        ensures
            r == transitions::is_source(self@, *a),
    {
        match self.source_registered.get(a) {
            Some(b) => *b,
            None => false,
        }
    }

    /// Whether the newest observation is too old.
    fn is_stale(&self, latest: &PriceObservation, now: u32) -> (r: bool)
        requires
            self@.observations.len() > 0,
            *latest == self@.observations.last(),
        ensures
            r == transitions::is_stale(self@, now),
    {
        now.saturating_sub(latest.ledger) > self.get_staleness_threshold()
    }

    /// The current price in the scale of reported prices. There is none without observations and
    /// none where the newest is stale.
    pub fn current_price_raw(&self, now: u32) -> (r: Result<Option<i128>, OracleTrap>)
        ensures
            match transitions::baseline(self@, now) {
                Ok(Some(price)) => r matches Ok(Some(p)) && p == price,
                Ok(None) => r == Ok::<Option<i128>, OracleTrap>(None),
                Err(t) => r == Err::<Option<i128>, OracleTrap>(t),
            },
    {
        let latest = match self.observations.latest() {
            Some(observation) => observation,
            None => {
                return Ok(None);
            },
        };
        if self.is_stale(&latest, now) {
            return Ok(None);
        }
        let window = self.observations.recent(self.get_twap_window());
        match weigh(&window, now) {
            Ok((sum, weight)) => {
                proof {
                    twap::lemma_total_weight_bounds(window@, now, window@.len() as int);
                }
                if weight == 0 {
                    Ok(None)
                } else {
                    Ok(Some(divide(sum, weight)))
                }
            },
            Err(t) => Err(t),
        }
    }

    /// The fallback price, or the given abort where there is none.
    fn fall_back(&self, otherwise: OracleTrap) -> (r: Result<i128, OracleFailure>)
        ensures
            match transitions::fallback(self@, otherwise) {
                Ok(price) => r matches Ok(p) && p == price,
                Err(f) => r == Err::<i128, OracleFailure>(f),
            },
    {
        match self.fallback_price {
            Some(price) => Ok(price),
            None => Err(OracleFailure::Trap(otherwise)),
        }
    }

    /// The oracle's own price.
    pub fn internal_price(&self, now: u32) -> (r: Result<i128, OracleFailure>)
        ensures
            match transitions::quoted_price(self@, now) {
                Ok(price) => r matches Ok(p) && p == price,
                Err(f) => r == Err::<i128, OracleFailure>(f),
            },
    {
        let latest = match self.observations.latest() {
            Some(observation) => observation,
            None => {
                return self.fall_back(OracleTrap::NoObservationsAndNoFallback);
            },
        };
        if self.is_stale(&latest, now) {
            return self.fall_back(OracleTrap::StaleAndNoFallback);
        }
        let window = self.observations.recent(self.get_twap_window());
        match weigh(&window, now) {
            Ok((sum, weight)) => {
                proof {
                    twap::lemma_total_weight_bounds(window@, now, window@.len() as int);
                }
                if weight == 0 {
                    self.fall_back(OracleTrap::ZeroWeightAndNoFallback)
                } else {
                    Ok(divide(sum, weight * PRICE_SCALE))
                }
            },
            Err(t) => Err(OracleFailure::Trap(t)),
        }
    }

    /// Sets up the admin.
    pub fn initialize(&mut self, admin: Address) -> (r: Result<(), OracleFailure>)
        ensures
            if old(self)@.admin is Some {
                r == Err::<(), OracleFailure>(
                    OracleFailure::Error(OracleError::ContractAlreadyInitialized),
                ) && final(self)@ == old(self)@
            } else {
                r == Ok::<(), OracleFailure>(()) && final(self)@ == transitions::initialized(
                    old(self)@,
                    admin,
                )
            },
    {
        if self.admin.is_some() {
            return Err(OracleFailure::Error(OracleError::ContractAlreadyInitialized));
        }
        self.admin = Some(admin);
        self.observations.restart();
        self.twap_window = Some(DEFAULT_TWAP_WINDOW);
        self.staleness_threshold = Some(DEFAULT_STALENESS_THRESHOLD);
        Ok(())
    }

    /// The admin lets an address report prices.
    pub fn add_reporter(&mut self, admin: Address, reporter: Address) -> (r: Result<
        OracleReceipt<Vec<u8>>,
        OracleFailure,
    >)
        ensures
            transitions::follows(
                transitions::add_reporter_step(old(self)@, admin, reporter),
                old(self)@,
                final(self)@,
                r,
            ),
    {
        if let Err(f) = self.require_admin(&admin) {
            return Err(f);
        }
        self.reporters.set(reporter, true);
        Ok(announce(OracleEvent::ReporterAdded { admin, reporter }))
    }

    /// The admin no longer lets an address report prices.
    pub fn remove_reporter(&mut self, admin: Address, reporter: Address) -> (r: Result<
        OracleReceipt<Vec<u8>>,
        OracleFailure,
    >)
        ensures
            transitions::follows(
                transitions::remove_reporter_step(old(self)@, admin, reporter),
                old(self)@,
                final(self)@,
                r,
            ),
    {
        if let Err(f) = self.require_admin(&admin) {
            return Err(f);
        }
        self.reporters.remove(&reporter);
        Ok(announce(OracleEvent::ReporterRemoved { admin, reporter }))
    }

    /// The admin sets the token and the least amount of a stake, how long it is locked, and where
    /// slashed stakes go.
    pub fn configure_staking(
        &mut self,
        admin: Address,
        stake_token: Address,
        min_stake: i128,
        treasury: Address,
        unstake_cooldown: u32,
    ) -> (r: Result<OracleReceipt<Vec<u8>>, OracleFailure>)
        ensures
            transitions::follows(
                transitions::configure_step(
                    old(self)@,
                    admin,
                    (StakingConfig { token: stake_token, min_stake, treasury, unstake_cooldown }),
                ),
                old(self)@,
                final(self)@,
                r,
            ),
    {
        if let Err(f) = self.require_admin(&admin) {
            return Err(f);
        }
        if min_stake <= 0 {
            return Err(OracleFailure::Error(OracleError::MinimumStakeMustBePositive));
        }
        if unstake_cooldown == 0 {
            return Err(OracleFailure::Error(OracleError::UnstakeCooldownMustBePositive));
        }
        self.staking = Some(
            StakingConfig { token: stake_token, min_stake, treasury, unstake_cooldown },
        );
        Ok(no_news())
    }

    /// A reporter adds to its stake.
    pub fn stake(&mut self, ctx: &CallContext, reporter: Address, amount: i128) -> (r: Result<
        OracleReceipt<Vec<u8>>,
        OracleFailure,
    >)
        ensures
            transitions::follows(
                transitions::stake_step(old(self)@, *ctx, reporter, amount),
                old(self)@,
                final(self)@,
                r,
            ),
    {
        if amount <= 0 {
            return Err(OracleFailure::Error(OracleError::StakeAmountMustBePositive));
        }
        if !self.is_reporter(&reporter) {
            return Err(OracleFailure::Error(OracleError::NotAnAuthorisedReporter));
        }
        let config = match self.staking {
            Some(config) => config,
            None => {
                return Err(OracleFailure::Trap(OracleTrap::StakingNotConfigured));
            },
        };
        let total: i128 = match self.get_reporter_stake(&reporter).checked_add(amount) {
            Some(t) => t,
            None => {
                return Err(OracleFailure::Trap(OracleTrap::ReporterStakeOverflow));
            },
        };
        let available_at: u32 = match ctx.sequence.checked_add(config.unstake_cooldown) {
            Some(a) => a,
            None => {
                return Err(OracleFailure::Trap(OracleTrap::StakeCooldownOverflow));
            },
        };
        self.stakes.set(reporter, total);
        self.stake_available_at.set(reporter, available_at);
        Ok(
            OracleReceipt {
                event: Some(OracleEvent::StakeDeposited { reporter, amount, total, available_at }),
                transfer: Some(
                    TokenTransfer { token: config.token, from: reporter, to: ctx.contract, amount },
                ),
            },
        )
    }

    /// A reporter takes its whole stake back once it is no longer locked.
    pub fn unstake(&mut self, ctx: &CallContext, reporter: Address) -> (r: Result<
        OracleReceipt<Vec<u8>>,
        OracleFailure,
    >)
        ensures
            transitions::follows(
                transitions::unstake_step(old(self)@, *ctx, reporter),
                old(self)@,
                final(self)@,
                r,
            ),
    {
        let amount: i128 = self.get_reporter_stake(&reporter);
        if amount <= 0 {
            return Err(OracleFailure::Error(OracleError::NoReporterStake));
        }
        let available_at: u32 = match self.stake_available_at.get(&reporter) {
            Some(a) => *a,
            None => {
                return Err(OracleFailure::Trap(OracleTrap::StakeCooldownNotSet));
            },
        };
        if ctx.sequence < available_at {
            return Err(OracleFailure::Error(OracleError::UnstakeCooldownNotReached));
        }
        let config = match self.staking {
            Some(config) => config,
            None => {
                return Err(OracleFailure::Trap(OracleTrap::StakingNotConfigured));
            },
        };
        self.stakes.set(reporter, 0);
        self.stake_available_at.remove(&reporter);
        Ok(
            OracleReceipt {
                event: Some(OracleEvent::StakeWithdrawn { reporter, amount }),
                transfer: Some(
                    TokenTransfer { token: config.token, from: ctx.contract, to: reporter, amount },
                ),
            },
        )
    }

    /// The admin takes part of a reporter's stake away, for the treasury.
    pub fn slash(
        &mut self,
        ctx: &CallContext,
        admin: Address,
        reporter: Address,
        amount: i128,
        reason: Vec<u8>,
    ) -> (r: Result<OracleReceipt<Vec<u8>>, OracleFailure>)
        ensures
            transitions::follows(
                transitions::slash_step(old(self)@, *ctx, admin, reporter, amount, reason@),
                old(self)@,
                final(self)@,
                r,
            ),
    {
        if let Err(f) = self.require_admin(&admin) {
            return Err(f);
        }
        if amount <= 0 {
            return Err(OracleFailure::Error(OracleError::SlashAmountMustBePositive));
        }
        let current: i128 = self.get_reporter_stake(&reporter);
        if amount > current {
            return Err(OracleFailure::Error(OracleError::SlashAmountExceedsReporterStake));
        }
        let remaining: i128 = current - amount;
        let config = match self.staking {
            Some(config) => config,
            None => {
                return Err(OracleFailure::Trap(OracleTrap::StakingNotConfigured));
            },
        };
        let mut events = self.get_slash_history(&reporter);
        let ghost before = state::slashes_model(events@);
        events.push(
            SlashEvent { amount, reason: copy_bytes(&reason), ledger: ctx.sequence },
        );
        assert(state::slashes_model(events@) =~= before.push(events@.last()@));
        self.stakes.set(reporter, remaining);
        self.slash_histories.set(reporter, SlashHistory { events });
        Ok(
            OracleReceipt {
                event: Some(OracleEvent::StakeSlashed { reporter, amount, remaining, reason }),
                transfer: Some(
                    TokenTransfer {
                        token: config.token,
                        from: ctx.contract,
                        to: config.treasury,
                        amount,
                    },
                ),
            },
        )
    }

    /// The stake of a reporter.
    pub fn get_reporter_stake(&self, reporter: &Address) -> (r: i128)
        ensures
            r == transitions::stake_of(self@, *reporter),
    {
        match self.stakes.get(reporter) {
            Some(amount) => *amount,
            None => 0,
        }
    }

    /// The slash events of a reporter, from the oldest to the newest.
    pub fn get_slash_history(&self, reporter: &Address) -> (r: Vec<SlashEvent>)
        ensures
            state::slashes_model(r@) == transitions::slashes_of(self@, *reporter),
    {
        match self.slash_histories.get(reporter) {
            Some(history) => copy_slashes(&history.events),
            None => {
                let none: Vec<SlashEvent> = Vec::new();
                assert(state::slashes_model(none@) =~= Seq::empty());
                none
            },
        }
    }

    /// The admin registers another oracle as a source. One that is registered stays so.
    pub fn add_source_oracle(
        &mut self,
        ctx: &CallContext,
        admin: Address,
        oracle_address: Address,
    ) -> (r: Result<OracleReceipt<Vec<u8>>, OracleFailure>)
        ensures
            transitions::follows(
                transitions::add_source_step(old(self)@, *ctx, admin, oracle_address),
                old(self)@,
                final(self)@,
                r,
            ),
    {
        if let Err(f) = self.require_admin(&admin) {
            return Err(f);
        }
        if self.is_source(&oracle_address) {
            return Ok(no_news());
        }
        if oracle_address == ctx.contract {
            return Err(OracleFailure::Error(OracleError::CannotRegisterOracleAsItsOwnSource));
        }
        if self.sources.len() >= MAX_SOURCE_ORACLES as usize {
            return Err(OracleFailure::Error(OracleError::SourceOracleLimitExceeded));
        }
        self.source_registered.set(oracle_address, true);
        self.sources.push(oracle_address);
        Ok(no_news())
    }

    /// The admin removes a source.
    pub fn remove_source_oracle(&mut self, admin: Address, oracle_address: Address) -> (r: Result<
        OracleReceipt<Vec<u8>>,
        OracleFailure,
    >)
        ensures
            transitions::follows(
                transitions::remove_source_step(old(self)@, admin, oracle_address),
                old(self)@,
                final(self)@,
                r,
            ),
    {
        if let Err(f) = self.require_admin(&admin) {
            return Err(f);
        }
        if !self.is_source(&oracle_address) {
            return Ok(no_news());
        }
        self.source_registered.remove(&oracle_address);
        self.sources = remove_first(&self.sources, oracle_address);
        Ok(no_news())
    }

    /// A reporter reports a price. A price that deviates too far from the current one is announced as
    /// rejected and not recorded.
    pub fn report_price(&mut self, ctx: &CallContext, reporter: Address, price: i128) -> (r: Result<
        OracleReceipt<Vec<u8>>,
        OracleFailure,
    >)
        ensures
            transitions::follows(
                transitions::report_step(old(self)@, *ctx, reporter, price),
                old(self)@,
                final(self)@,
                r,
            ),
    {
        if !self.is_reporter(&reporter) {
            return Err(OracleFailure::Error(OracleError::NotAnAuthorisedReporter));
        }
        let min_stake: i128 = match self.staking {
            Some(config) => config.min_stake,
            None => 0,
        };
        if self.get_reporter_stake(&reporter) < min_stake {
            return Err(OracleFailure::Error(OracleError::ReporterStakeBelowMinimum));
        }
        if price <= 0 {
            return Err(OracleFailure::Error(OracleError::PriceMustBePositive));
        }
        if self.max_price_deviation_bps > 0 && self.observations.len() >= 2 {
            match self.current_price_raw(ctx.sequence) {
                Err(t) => {
                    return Err(OracleFailure::Trap(t));
                },
                Ok(None) => {},
                Ok(Some(current_price)) => {
                    let deviation_bps: u32 = calculate_deviation_bps(price, current_price);
                    if deviation_bps > self.max_price_deviation_bps {
                        return Ok(
                            announce(
                                OracleEvent::PriceRejected {
                                    reporter,
                                    price,
                                    current_price,
                                    deviation_bps,
                                },
                            ),
                        );
                    }
                },
            }
        }
        self.observations.push(PriceObservation { price, reporter, ledger: ctx.sequence });
        Ok(announce(OracleEvent::PriceUpdated { reporter, price, ledger: ctx.sequence }))
    }

    /// The admin sets the price for when there is no current one.
    pub fn set_fallback_price(&mut self, admin: Address, price: i128) -> (r: Result<
        OracleReceipt<Vec<u8>>,
        OracleFailure,
    >)
        ensures
            transitions::follows(
                transitions::fallback_step(old(self)@, admin, price),
                old(self)@,
                final(self)@,
                r,
            ),
    {
        if let Err(f) = self.require_admin(&admin) {
            return Err(f);
        }
        if price <= 0 {
            return Err(OracleFailure::Error(OracleError::FallbackPriceMustBePositive));
        }
        self.fallback_price = Some(price);
        Ok(no_news())
    }

    /// The admin sets how far a reported price may deviate, in basis points. Zero allows any.
    pub fn set_max_price_deviation(&mut self, admin: Address, deviation_bps: u32) -> (r: Result<
        OracleReceipt<Vec<u8>>,
        OracleFailure,
    >)
        ensures
            transitions::follows(
                transitions::max_deviation_step(old(self)@, admin, deviation_bps),
                old(self)@,
                final(self)@,
                r,
            ),
    {
        if let Err(f) = self.require_admin(&admin) {
            return Err(f);
        }
        self.max_price_deviation_bps = deviation_bps;
        Ok(no_news())
    }

    /// The admin sets how many observations are averaged.
    pub fn set_twap_window(&mut self, admin: Address, window: u32) -> (r: Result<
        OracleReceipt<Vec<u8>>,
        OracleFailure,
    >)
        ensures
            transitions::follows(
                transitions::twap_window_step(old(self)@, admin, window),
                old(self)@,
                final(self)@,
                r,
            ),
    {
        if let Err(f) = self.require_admin(&admin) {
            return Err(f);
        }
        if window == 0 {
            return Err(OracleFailure::Error(OracleError::TwapWindowMustBeAtLeastOne));
        }
        if window > MAX_OBSERVATIONS {
            return Err(OracleFailure::Error(OracleError::TwapWindowExceedsMaximum));
        }
        if window > self.get_staleness_threshold() {
            return Err(OracleFailure::Error(OracleError::TwapWindowExceedsStalenessThreshold));
        }
        self.twap_window = Some(window);
        Ok(announce(OracleEvent::TwapWindowSet { admin, window }))
    }

    /// The admin sets after how many ledgers a price is stale.
    pub fn set_staleness_threshold(&mut self, admin: Address, threshold: u32) -> (r: Result<
        OracleReceipt<Vec<u8>>,
        OracleFailure,
    >)
        ensures
            transitions::follows(
                transitions::staleness_step(old(self)@, admin, threshold),
                old(self)@,
                final(self)@,
                r,
            ),
    {
        if let Err(f) = self.require_admin(&admin) {
            return Err(f);
        }
        if threshold < self.get_twap_window() {
            return Err(
                OracleFailure::Error(OracleError::StalenessThresholdMustBeAtLeastTwapWindow),
            );
        }
        if threshold < MAX_OBSERVATIONS {
            return Err(OracleFailure::Error(OracleError::InvalidConfiguration));
        }
        self.staleness_threshold = Some(threshold);
        Ok(announce(OracleEvent::StalenessThresholdSet { admin, threshold }))
    }

    /// How many observations are averaged.
    pub fn get_twap_window(&self) -> (r: u32)
        ensures
            r == self@.twap_window,
    {
        match self.twap_window {
            Some(window) => window,
            None => DEFAULT_TWAP_WINDOW,
        }
    }

    /// After how many ledgers a price is stale.
    pub fn get_staleness_threshold(&self) -> (r: u32)
        ensures
            r == self@.staleness_threshold,
    {
        match self.staleness_threshold {
            Some(threshold) => threshold,
            None => DEFAULT_STALENESS_THRESHOLD,
        }
    }

    /// The time-weighted average of the recent observations. Each weighs as many ledgers as it stood.
    /// Without observations, and where the newest is stale, it is the fallback price.
    pub fn get_price(&self, ctx: &CallContext) -> (r: Result<i128, OracleFailure>)
        ensures
            match transitions::quoted_price(self@, ctx.sequence) {
                Ok(price) => r matches Ok(p) && p == price,
                Err(f) => r == Err::<i128, OracleFailure>(f),
            },
    {
        self.internal_price(ctx.sequence)
    }

    /// Whether every source is a contract.
    fn sources_are_contracts(&self) -> (r: bool)
        ensures
            r == !(exists|i: int|
                0 <= i < self@.sources.len() && (#[trigger] self@.sources[i]) is Account),
    {
        let mut i: usize = 0;
        while i < self.sources.len()
            invariant
                i <= self.sources.len(),
                forall|j: int| 0 <= j < i ==> (#[trigger] self.sources@[j]) is Contract,
            decreases self.sources.len() - i,
        {
            if let Address::Account(_) = self.sources[i] {
                assert(self@.sources[i as int] is Account);
                return false;
            }
            i = i + 1;
        }
        true
    }

    /// The median of what the sources replied, and which of them were left out. Without sources it is
    /// the oracle's own price.
    pub fn aggregated_price(&self, now: u32, replies: &Vec<SourceReply>) -> (r: Result<
        (i128, Vec<SourceSkip>),
        OracleFailure,
    >)
        requires
            replies@.len() == self@.sources.len(),
        ensures
            transitions::gives(transitions::aggregated_price(self@, now, replies@), r),
    {
        if self.sources.len() == 0 {
            return match self.internal_price(now) {
                Ok(price) => Ok((price, Vec::new())),
                Err(f) => Err(f),
            };
        }
        if !self.sources_are_contracts() {
            return Err(OracleFailure::Trap(OracleTrap::SourceIsNoContract));
        }
        match aggregate::aggregate(&self.sources, replies) {
            Ok(outcome) => Ok(outcome),
            Err(e) => Err(OracleFailure::Error(e)),
        }
    }

    /// Asks every source for its price and takes the median of the replies. Without sources it is the
    /// oracle's own price. The outcome is that of `aggregated_price` for whatever they reply. A source
    /// that is no contract cannot be asked.
    pub fn get_aggregated_price(&self, env: &Env, ctx: &CallContext) -> (r: Result<
        (i128, Vec<SourceSkip>),
        OracleFailure,
    >)
        ensures
            (exists|i: int| 0 <= i < self@.sources.len() && (#[trigger] self@.sources[i]) is Account)
                ==> r == Err::<(i128, Vec<SourceSkip>), OracleFailure>(
                OracleFailure::Trap(OracleTrap::SourceIsNoContract),
            ),
            (forall|i: int| 0 <= i < self@.sources.len() ==> (#[trigger] self@.sources[i]) is Contract)
                ==> exists|replies: Seq<SourceReply>|
                aggregate::answered(self@.sources, replies) && transitions::gives(
                    #[trigger] transitions::aggregated_price(self@, ctx.sequence, replies),
                    r,
                ),
    {
        let mut replies: Vec<SourceReply> = Vec::new();
        let mut i: usize = 0;
        while i < self.sources.len()
            invariant
                i <= self.sources.len(),
                aggregate::answered(self@.sources.take(i as int), replies@),
            decreases self.sources.len() - i,
        {
            match ask_for_price(env, &self.sources[i]) {
                Some(reply) => {
                    let ghost asked = self@.sources.take(i as int);
                    assert(self@.sources.take(i + 1) =~= asked.push(self@.sources[i as int]));
                    replies.push(reply);
                },
                None => {
                    return Err(OracleFailure::Trap(OracleTrap::SourceIsNoContract));
                },
            }
            i = i + 1;
        }
        assert(self@.sources.take(i as int) =~= self@.sources);
        assert forall|k: int| 0 <= k < self@.sources.len() implies (
        #[trigger] self@.sources[k]) is Contract by {
            assert(aggregate::has_answered(self@.sources[k], replies@[k]));
        }
        self.aggregated_price(ctx.sequence, &replies)
    }
}

} // verus!
