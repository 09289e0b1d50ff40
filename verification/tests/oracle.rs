use std::cell::{Cell, RefCell};

use indigopay::address::Address;
use indigopay::context::{CallContext, TokenTransfer};
use indigopay::dummy::Dummy;
use indigopay::oracle::aggregate::{aggregate, ask_for_price, SourceReply, SourceSkip};
use indigopay::oracle::deviation::calculate_deviation_bps;
use indigopay::oracle::error::{OracleError, OracleFailure, OracleTrap};
use indigopay::oracle::events::{OracleEvent, OracleReceipt};
use indigopay::oracle::ring::{ObservationRing, PriceObservation, MAX_OBSERVATIONS};
use indigopay::oracle::state::{
    SimpleOracle, SlashEvent, DEFAULT_STALENESS_THRESHOLD, DEFAULT_TWAP_WINDOW,
    DEFAULT_UNSTAKE_COOLDOWN, MAX_SOURCE_ORACLES,
};
use indigopay::oracle::twap::{divide, weigh, PRICE_SCALE};
use soroban_sdk::address_payload::AddressPayload;
use soroban_sdk::testutils::{ContractFunctionSet, EnvTestConfig, Register};
use soroban_sdk::{IntoVal, Val};

/// A host that leaves no snapshot of its ledger behind.
fn quiet_env() -> soroban_sdk::Env {
    soroban_sdk::Env::new_with_config(EnvTestConfig {
        capture_snapshot_at_drop: false,
    })
}

/// A contract that gives a fixed price.
struct FixedPriceSource(i128);

impl ContractFunctionSet for FixedPriceSource {
    fn call(&self, func: &str, env: soroban_sdk::Env, _args: &[Val]) -> Option<Val> {
        if func == "get_price" {
            Some(self.0.into_val(&env))
        } else {
            None
        }
    }
}

/// A contract that panics when it is asked for its price.
struct PanickingPriceSource;

impl ContractFunctionSet for PanickingPriceSource {
    fn call(&self, func: &str, _env: soroban_sdk::Env, _args: &[Val]) -> Option<Val> {
        if func == "get_price" {
            panic!("source unavailable");
        }
        None
    }
}

/// A contract that answers with an error.
struct ErrorPriceSource;

impl ContractFunctionSet for ErrorPriceSource {
    fn call(&self, func: &str, env: soroban_sdk::Env, _args: &[Val]) -> Option<Val> {
        if func == "get_price" {
            env.panic_with_error(soroban_sdk::Error::from_contract_error(1));
        }
        None
    }
}

/// A contract that gives a number of another type.
struct IncompatiblePriceSource;

impl ContractFunctionSet for IncompatiblePriceSource {
    fn call(&self, func: &str, env: soroban_sdk::Env, _args: &[Val]) -> Option<Val> {
        if func == "get_price" {
            Some(42u32.into_val(&env))
        } else {
            None
        }
    }
}

/// An oracle on a ledger with token balances. Whoever calls is taken to be authenticated.
struct World {
    sdk: soroban_sdk::Env,
    id: Address,
    sequence: Cell<u32>,
    generated: Cell<u32>,
    balances: RefCell<Vec<(Address, Address, i128)>>,
    oracle: RefCell<SimpleOracle>,
    events: RefCell<Vec<OracleEvent<Vec<u8>>>>,
    skips: RefCell<Vec<SourceSkip>>,
}

impl World {
    fn new() -> Self {
        World {
            sdk: quiet_env(),
            id: Address::Contract([9u8; 32]),
            sequence: Cell::new(0),
            generated: Cell::new(0),
            balances: RefCell::new(Vec::new()),
            oracle: RefCell::new(SimpleOracle::new()),
            events: RefCell::new(Vec::new()),
            skips: RefCell::new(Vec::new()),
        }
    }

    fn generate(&self) -> Address {
        let n = self.generated.get() + 1;
        self.generated.set(n);
        let mut hash = [0u8; 32];
        hash[..4].copy_from_slice(&n.to_be_bytes());
        Address::Contract(hash)
    }

    fn sequence(&self) -> u32 {
        self.sequence.get()
    }

    fn set_sequence(&self, sequence: u32) {
        self.sequence.set(sequence);
    }

    fn ctx(&self) -> CallContext {
        CallContext {
            contract: self.id,
            sequence: self.sequence(),
            timestamp: 0,
        }
    }

    fn register<C: Register>(&self, contract: C) -> Address {
        let address = self.sdk.register(contract, ());
        match address.to_payload() {
            Some(AddressPayload::ContractIdHash(hash)) => Address::Contract(hash.to_array()),
            _ => panic!("expected a contract"),
        }
    }

    fn observation_count(&self) -> u32 {
        self.oracle.borrow().observations.len()
    }

    fn take_events(&self) -> Vec<OracleEvent<Vec<u8>>> {
        self.events.borrow_mut().drain(..).collect()
    }

    fn balance(&self, token: &Address, holder: &Address) -> i128 {
        self.balances
            .borrow()
            .iter()
            .find(|(t, h, _)| t == token && h == holder)
            .map(|(_, _, amount)| *amount)
            .unwrap_or(0)
    }

    fn set_balance(&self, token: &Address, holder: &Address, amount: i128) {
        let mut balances = self.balances.borrow_mut();
        balances.retain(|(t, h, _)| !(t == token && h == holder));
        balances.push((*token, *holder, amount));
    }

    fn transfer(&self, t: &TokenTransfer) {
        let from = self.balance(&t.token, &t.from);
        if t.amount < 0 || from < t.amount {
            panic!("Error: the balance is not sufficient");
        }
        self.set_balance(&t.token, &t.from, from - t.amount);
        let to = self.balance(&t.token, &t.to);
        self.set_balance(&t.token, &t.to, to + t.amount);
    }
}

type Outcome = Result<OracleReceipt<Vec<u8>>, OracleFailure>;

struct SimpleOracleClient<'a> {
    env: &'a World,
}

impl<'a> SimpleOracleClient<'a> {
    fn new(env: &'a World, _contract_id: &Address) -> Self {
        SimpleOracleClient { env }
    }

    fn carry_out(&self, outcome: Outcome) -> Result<(), OracleFailure> {
        let receipt = outcome?;
        if let Some(event) = receipt.event {
            self.env.events.borrow_mut().push(event);
        }
        if let Some(t) = &receipt.transfer {
            self.env.transfer(t);
        }
        Ok(())
    }

    fn expect(&self, outcome: Result<(), OracleFailure>) {
        if let Err(failure) = outcome {
            panic!("Error({:?})", failure);
        }
    }

    fn initialize(&self, admin: &Address) {
        self.expect(self.env.oracle.borrow_mut().initialize(*admin));
    }

    fn try_add_reporter(&self, admin: &Address, reporter: &Address) -> Result<(), OracleFailure> {
        let outcome = self.env.oracle.borrow_mut().add_reporter(*admin, *reporter);
        self.carry_out(outcome)
    }

    fn add_reporter(&self, admin: &Address, reporter: &Address) {
        self.expect(self.try_add_reporter(admin, reporter));
    }

    fn remove_reporter(&self, admin: &Address, reporter: &Address) {
        let outcome = self.env.oracle.borrow_mut().remove_reporter(*admin, *reporter);
        self.expect(self.carry_out(outcome));
    }

    fn try_configure_staking(
        &self,
        admin: &Address,
        token: &Address,
        min_stake: &i128,
        treasury: &Address,
        cooldown: &u32,
    ) -> Result<(), OracleFailure> {
        let outcome = self.env.oracle.borrow_mut().configure_staking(
            *admin, *token, *min_stake, *treasury, *cooldown,
        );
        self.carry_out(outcome)
    }

    fn configure_staking(
        &self,
        admin: &Address,
        token: &Address,
        min_stake: &i128,
        treasury: &Address,
        cooldown: &u32,
    ) {
        self.expect(self.try_configure_staking(admin, token, min_stake, treasury, cooldown));
    }

    fn try_stake(&self, reporter: &Address, amount: &i128) -> Result<(), OracleFailure> {
        let outcome = self
            .env
            .oracle
            .borrow_mut()
            .stake(&self.env.ctx(), *reporter, *amount);
        self.carry_out(outcome)
    }

    fn stake(&self, reporter: &Address, amount: &i128) {
        self.expect(self.try_stake(reporter, amount));
    }

    fn try_unstake(&self, reporter: &Address) -> Result<(), OracleFailure> {
        let outcome = self
            .env
            .oracle
            .borrow_mut()
            .unstake(&self.env.ctx(), *reporter);
        self.carry_out(outcome)
    }

    fn unstake(&self, reporter: &Address) {
        self.expect(self.try_unstake(reporter));
    }

    fn try_slash(
        &self,
        admin: &Address,
        reporter: &Address,
        amount: &i128,
        reason: &Vec<u8>,
    ) -> Result<(), OracleFailure> {
        let outcome = self.env.oracle.borrow_mut().slash(
            &self.env.ctx(),
            *admin,
            *reporter,
            *amount,
            reason.clone(),
        );
        self.carry_out(outcome)
    }

    fn slash(&self, admin: &Address, reporter: &Address, amount: &i128, reason: &Vec<u8>) {
        self.expect(self.try_slash(admin, reporter, amount, reason));
    }

    fn get_reporter_stake(&self, reporter: &Address) -> i128 {
        self.env.oracle.borrow().get_reporter_stake(reporter)
    }

    fn get_slash_history(&self, reporter: &Address) -> Vec<SlashEvent> {
        self.env.oracle.borrow().get_slash_history(reporter)
    }

    fn try_add_source_oracle(&self, admin: &Address, source: &Address) -> Result<(), OracleFailure> {
        let outcome = self
            .env
            .oracle
            .borrow_mut()
            .add_source_oracle(&self.env.ctx(), *admin, *source);
        self.carry_out(outcome)
    }

    fn add_source_oracle(&self, admin: &Address, source: &Address) {
        self.expect(self.try_add_source_oracle(admin, source));
    }

    fn try_remove_source_oracle(
        &self,
        admin: &Address,
        source: &Address,
    ) -> Result<(), OracleFailure> {
        let outcome = self
            .env
            .oracle
            .borrow_mut()
            .remove_source_oracle(*admin, *source);
        self.carry_out(outcome)
    }

    fn remove_source_oracle(&self, admin: &Address, source: &Address) {
        self.expect(self.try_remove_source_oracle(admin, source));
    }

    fn try_report_price(&self, reporter: &Address, price: &i128) -> Result<(), OracleFailure> {
        let outcome = self
            .env
            .oracle
            .borrow_mut()
            .report_price(&self.env.ctx(), *reporter, *price);
        self.carry_out(outcome)
    }

    fn report_price(&self, reporter: &Address, price: &i128) {
        self.expect(self.try_report_price(reporter, price));
    }

    fn try_set_fallback_price(&self, admin: &Address, price: &i128) -> Result<(), OracleFailure> {
        let outcome = self
            .env
            .oracle
            .borrow_mut()
            .set_fallback_price(*admin, *price);
        self.carry_out(outcome)
    }

    fn set_fallback_price(&self, admin: &Address, price: &i128) {
        self.expect(self.try_set_fallback_price(admin, price));
    }

    fn set_max_price_deviation(&self, admin: &Address, deviation_bps: &u32) {
        let outcome = self
            .env
            .oracle
            .borrow_mut()
            .set_max_price_deviation(*admin, *deviation_bps);
        self.expect(self.carry_out(outcome));
    }

    fn try_set_twap_window(&self, admin: &Address, window: &u32) -> Result<(), OracleFailure> {
        let outcome = self
            .env
            .oracle
            .borrow_mut()
            .set_twap_window(*admin, *window);
        self.carry_out(outcome)
    }

    fn set_twap_window(&self, admin: &Address, window: &u32) {
        self.expect(self.try_set_twap_window(admin, window));
    }

    fn try_set_staleness_threshold(
        &self,
        admin: &Address,
        threshold: &u32,
    ) -> Result<(), OracleFailure> {
        let outcome = self
            .env
            .oracle
            .borrow_mut()
            .set_staleness_threshold(*admin, *threshold);
        self.carry_out(outcome)
    }

    fn set_staleness_threshold(&self, admin: &Address, threshold: &u32) {
        self.expect(self.try_set_staleness_threshold(admin, threshold));
    }

    fn get_twap_window(&self) -> u32 {
        self.env.oracle.borrow().get_twap_window()
    }

    fn get_staleness_threshold(&self) -> u32 {
        self.env.oracle.borrow().get_staleness_threshold()
    }

    fn try_get_price(&self) -> Result<i128, OracleFailure> {
        self.env.oracle.borrow().get_price(&self.env.ctx())
    }

    fn get_price(&self) -> i128 {
        match self.try_get_price() {
            Ok(price) => price,
            Err(failure) => panic!("Error({:?})", failure),
        }
    }

    fn try_get_aggregated_price(&self) -> Result<i128, OracleFailure> {
        let oracle = self.env.oracle.borrow();
        let (price, skips) = oracle.get_aggregated_price(&self.env.sdk, &self.env.ctx())?;
        *self.env.skips.borrow_mut() = skips;
        Ok(price)
    }

    fn get_aggregated_price(&self) -> i128 {
        match self.try_get_aggregated_price() {
            Ok(price) => price,
            Err(failure) => panic!("Error({:?})", failure),
        }
    }
}

fn text(s: &str) -> Vec<u8> {
    s.as_bytes().to_vec()
}

fn error(e: OracleError) -> Result<(), OracleFailure> {
    Err(OracleFailure::Error(e))
}

fn setup() -> (World, Address, Address, Address) {
    let env = World::new();
    let contract_id = env.id;
    let admin = env.generate();
    let reporter = env.generate();
    SimpleOracleClient::new(&env, &contract_id).initialize(&admin);
    (env, contract_id, admin, reporter)
}

fn add_reporter(env: &World, contract_id: &Address, admin: &Address, reporter: &Address) {
    SimpleOracleClient::new(env, contract_id).add_reporter(admin, reporter);
}

fn setup_staking(
    env: &World,
    contract_id: &Address,
    admin: &Address,
    reporter: &Address,
    min_stake: i128,
    cooldown: u32,
) -> (Address, Address) {
    let stake_token = env.generate();
    let treasury = env.generate();
    env.set_balance(&stake_token, reporter, min_stake * 3);
    let client = SimpleOracleClient::new(env, contract_id);
    client.add_reporter(admin, reporter);
    client.configure_staking(admin, &stake_token, &min_stake, &treasury, &cooldown);
    (stake_token, treasury)
}

fn register_price_source(env: &World, price: i128) -> Address {
    env.register(FixedPriceSource(price))
}

fn source_list(env: &World, _contract_id: &Address) -> Vec<Address> {
    env.oracle.borrow().sources.clone()
}

fn is_source_registered(env: &World, _contract_id: &Address, source: &Address) -> bool {
    env.oracle
        .borrow()
        .source_registered
        .get(source)
        .copied()
        .unwrap_or(false)
}

/// Two observations of the same ledger at `base_price`, whose average is that price.
fn seed_baseline(
    env: &World,
    contract_id: &Address,
    admin: &Address,
    reporter: &Address,
    base_price: i128,
) {
    let client = SimpleOracleClient::new(env, contract_id);
    add_reporter(env, contract_id, admin, reporter);
    client.report_price(reporter, &base_price);
    client.report_price(reporter, &base_price);
}

#[test]
fn test_add_remove_source() {
    let (env, contract_id, admin, _) = setup();
    let client = SimpleOracleClient::new(&env, &contract_id);
    let first = env.generate();
    let second = env.generate();

    client.add_source_oracle(&admin, &first);
    client.add_source_oracle(&admin, &second);
    client.add_source_oracle(&admin, &first);

    assert_eq!(
        source_list(&env, &contract_id),
        vec![first.clone(), second.clone()]
    );
    assert!(is_source_registered(&env, &contract_id, &first));
    assert!(is_source_registered(&env, &contract_id, &second));

    client.remove_source_oracle(&admin, &first);
    client.remove_source_oracle(&admin, &first);
    client.remove_source_oracle(&admin, &env.generate());

    assert_eq!(
        source_list(&env, &contract_id),
        vec![second.clone()]
    );
    assert!(!is_source_registered(&env, &contract_id, &first));
    assert!(is_source_registered(&env, &contract_id, &second));
}

#[test]
fn test_source_limit_enforced() {
    let (env, contract_id, admin, _) = setup();
    let client = SimpleOracleClient::new(&env, &contract_id);
    let mut sources = Vec::new();

    for _ in 0..MAX_SOURCE_ORACLES {
        let source = env.generate();
        client.add_source_oracle(&admin, &source);
        sources.push(source);
    }
    assert_eq!(source_list(&env, &contract_id).len() as u32, MAX_SOURCE_ORACLES);

    let existing = *sources.first().unwrap();
    assert!(client.try_add_source_oracle(&admin, &existing).is_ok());
    assert_eq!(source_list(&env, &contract_id).len() as u32, MAX_SOURCE_ORACLES);

    let eighth = env.generate();
    assert!(client.try_add_source_oracle(&admin, &eighth).is_err());
    assert!(!is_source_registered(&env, &contract_id, &eighth));
    assert_eq!(source_list(&env, &contract_id).len() as u32, MAX_SOURCE_ORACLES);

    client.remove_source_oracle(&admin, &existing);
    client.add_source_oracle(&admin, &eighth);
    assert_eq!(source_list(&env, &contract_id).len() as u32, MAX_SOURCE_ORACLES);
    assert!(is_source_registered(&env, &contract_id, &eighth));
}

#[test]
fn unauthorized_source_management_does_not_mutate_state() {
    let (env, contract_id, admin, _) = setup();
    let client = SimpleOracleClient::new(&env, &contract_id);
    let non_admin = env.generate();
    let source = env.generate();

    assert!(client.try_add_source_oracle(&non_admin, &source).is_err());
    assert!(source_list(&env, &contract_id).is_empty());
    assert!(!is_source_registered(&env, &contract_id, &source));

    client.add_source_oracle(&admin, &source);
    assert!(client
        .try_remove_source_oracle(&non_admin, &source)
        .is_err());
    assert_eq!(
        source_list(&env, &contract_id),
        vec![source.clone()]
    );
    assert!(is_source_registered(&env, &contract_id, &source));
}

#[test]
fn direct_self_registration_is_rejected() {
    let (env, contract_id, admin, _) = setup();
    let client = SimpleOracleClient::new(&env, &contract_id);

    assert!(client.try_add_source_oracle(&admin, &contract_id).is_err());
    assert!(source_list(&env, &contract_id).is_empty());
    assert!(!is_source_registered(&env, &contract_id, &contract_id));
}

#[test]
fn test_aggregate_single_source() {
    let (env, contract_id, admin, _) = setup();
    let client = SimpleOracleClient::new(&env, &contract_id);
    let source = register_price_source(&env, 17);
    client.add_source_oracle(&admin, &source);

    assert_eq!(client.get_aggregated_price(), 17);
}

#[test]
fn test_aggregate_multiple_sources_median() {
    let (env, contract_id, admin, _) = setup();
    let client = SimpleOracleClient::new(&env, &contract_id);
    let high = register_price_source(&env, 30);
    let low = register_price_source(&env, 10);
    let middle = register_price_source(&env, 20);

    client.add_source_oracle(&admin, &high);
    client.add_source_oracle(&admin, &low);
    client.add_source_oracle(&admin, &middle);

    assert_eq!(client.get_aggregated_price(), 20);
}

#[test]
fn even_source_median_is_overflow_safe() {
    let (env, contract_id, admin, _) = setup();
    let client = SimpleOracleClient::new(&env, &contract_id);
    let lower = register_price_source(&env, i128::MAX - 2);
    let upper = register_price_source(&env, i128::MAX);
    client.add_source_oracle(&admin, &upper);
    client.add_source_oracle(&admin, &lower);

    assert_eq!(client.get_aggregated_price(), i128::MAX - 1);
}

#[test]
fn duplicate_values_are_retained_in_median() {
    let (env, contract_id, admin, _) = setup();
    let client = SimpleOracleClient::new(&env, &contract_id);
    for price in [9_i128, 100, 9] {
        let source = register_price_source(&env, price);
        client.add_source_oracle(&admin, &source);
    }

    assert_eq!(client.get_aggregated_price(), 9);
}

#[test]
fn invalid_prices_and_failed_sources_are_skipped() {
    let (env, contract_id, admin, _) = setup();
    let client = SimpleOracleClient::new(&env, &contract_id);
    let zero = register_price_source(&env, 0);
    let negative = register_price_source(&env, -5);
    let valid1 = register_price_source(&env, 25);
    let valid2 = register_price_source(&env, 25);
    let panicking = env.register(PanickingPriceSource);

    for source in [zero, negative, panicking, valid1, valid2] {
        client.add_source_oracle(&admin, &source);
    }

    assert_eq!(client.get_aggregated_price(), 25);
}

#[test]
fn test_aggregate_fallback_empty_sources() {
    let (env, contract_id, admin, _) = setup();
    let client = SimpleOracleClient::new(&env, &contract_id);
    client.set_fallback_price(&admin, &7);

    assert_eq!(client.get_aggregated_price(), 7);
}

#[test]
#[should_panic]
fn test_all_sources_down_fails_with_quorum_error() {
    let (env, contract_id, admin, _) = setup();
    let client = SimpleOracleClient::new(&env, &contract_id);

    let error_source = env.register(ErrorPriceSource);
    let incompatible_source = env.register(IncompatiblePriceSource);
    let missing_source = env.generate();
    client.add_source_oracle(&admin, &error_source);
    client.add_source_oracle(&admin, &incompatible_source);
    client.add_source_oracle(&admin, &missing_source);

    client.get_aggregated_price();
}

#[test]
fn test_one_source_unresponsive_is_skipped() {
    let (env, contract_id, admin, _) = setup();
    let client = SimpleOracleClient::new(&env, &contract_id);
    let valid1 = register_price_source(&env, 25);
    let valid2 = register_price_source(&env, 25);
    let panicking = env.register(PanickingPriceSource);

    client.add_source_oracle(&admin, &valid1);
    client.add_source_oracle(&admin, &panicking);
    client.add_source_oracle(&admin, &valid2);

    assert_eq!(client.get_aggregated_price(), 25);
}

#[test]
fn test_unexpected_response_type_is_skipped() {
    let (env, contract_id, admin, _) = setup();
    let client = SimpleOracleClient::new(&env, &contract_id);
    let low = register_price_source(&env, 10);
    let high = register_price_source(&env, 30);
    let incompatible = env.register(IncompatiblePriceSource);

    client.add_source_oracle(&admin, &low);
    client.add_source_oracle(&admin, &incompatible);
    client.add_source_oracle(&admin, &high);

    // median of [10,30] -> 20
    assert_eq!(client.get_aggregated_price(), 20);
}

#[test]
fn test_majority_failure_succeeds_with_quorum() {
    let (env, contract_id, admin, _) = setup();
    let client = SimpleOracleClient::new(&env, &contract_id);

    // 7 sources, 5 healthy (value 42), 2 panicking
    let mut sources = Vec::new();
    for _ in 0..5 {
        let s = register_price_source(&env, 42);
        client.add_source_oracle(&admin, &s);
        sources.push(s);
    }
    for _ in 0..2 {
        let p = env.register(PanickingPriceSource);
        client.add_source_oracle(&admin, &p);
    }

    assert_eq!(client.get_aggregated_price(), 42);
}

#[test]
fn aggregation_fallback_preserves_configured_twap_window() {
    let (env, contract_id, admin, reporter) = setup();
    let client = SimpleOracleClient::new(&env, &contract_id);
    add_reporter(&env, &contract_id, &admin, &reporter);

    env.set_sequence(100);
    client.report_price(&reporter, &100_000_000);
    env.set_sequence(200);
    client.report_price(&reporter, &200_000_000);
    env.set_sequence(300);
    assert_eq!(client.get_aggregated_price(), 15);

    client.set_twap_window(&admin, &1);
    assert_eq!(client.get_aggregated_price(), 20);
    assert_eq!(client.get_price(), 20);
}

#[test]
fn aggregation_fallback_preserves_staleness_and_fallback_price() {
    let (env, contract_id, admin, reporter) = setup();
    let client = SimpleOracleClient::new(&env, &contract_id);
    add_reporter(&env, &contract_id, &admin, &reporter);
    client.set_fallback_price(&admin, &6);
    client.set_staleness_threshold(&admin, &MAX_OBSERVATIONS);

    env.set_sequence(100);
    client.report_price(&reporter, &80_000_000);
    env.set_sequence(110);
    assert_eq!(client.get_aggregated_price(), 8);
    env.set_sequence(100 + MAX_OBSERVATIONS + 1);
    assert_eq!(client.get_aggregated_price(), 6);
    assert_eq!(client.get_price(), 6);
}

#[test]
fn test_one_source_unresponsive_succeeds() {
    let (env, contract_id, admin, _) = setup();
    let client = SimpleOracleClient::new(&env, &contract_id);

    let valid1 = register_price_source(&env, 10);
    let valid2 = register_price_source(&env, 12);
    let panicking = env.register(PanickingPriceSource);

    client.add_source_oracle(&admin, &valid1);
    client.add_source_oracle(&admin, &valid2);
    client.add_source_oracle(&admin, &panicking);

    assert_eq!(client.get_aggregated_price(), 11);
}

#[test]
fn test_one_source_invalid_succeeds() {
    let (env, contract_id, admin, _) = setup();
    let client = SimpleOracleClient::new(&env, &contract_id);

    let valid1 = register_price_source(&env, 10);
    let valid2 = register_price_source(&env, 12);
    let invalid = register_price_source(&env, 0);

    client.add_source_oracle(&admin, &valid1);
    client.add_source_oracle(&admin, &valid2);
    client.add_source_oracle(&admin, &invalid);

    assert_eq!(client.get_aggregated_price(), 11);
}

#[test]
fn test_unexpected_response_type_succeeds() {
    let (env, contract_id, admin, _) = setup();
    let client = SimpleOracleClient::new(&env, &contract_id);

    let valid1 = register_price_source(&env, 10);
    let valid2 = register_price_source(&env, 12);
    let incompatible = env.register(IncompatiblePriceSource);

    client.add_source_oracle(&admin, &valid1);
    client.add_source_oracle(&admin, &valid2);
    client.add_source_oracle(&admin, &incompatible);

    assert_eq!(client.get_aggregated_price(), 11);
}

#[test]
fn test_minority_failure_succeeds() {
    let (env, contract_id, admin, _) = setup();
    let client = SimpleOracleClient::new(&env, &contract_id);

    // 7 sources: 5 healthy, 2 failed
    for price in [10, 11, 12, 13, 14] {
        client.add_source_oracle(&admin, &register_price_source(&env, price));
    }
    client.add_source_oracle(&admin, &env.register(PanickingPriceSource));
    client.add_source_oracle(&admin, &env.register(ErrorPriceSource));

    assert_eq!(client.get_aggregated_price(), 12);
}

#[test]
#[should_panic]
fn test_below_quorum_fails() {
    let (env, contract_id, admin, _) = setup();
    let client = SimpleOracleClient::new(&env, &contract_id);

    // 3 configured sources, 1 healthy, 2 failed (quorum required is 2)
    client.add_source_oracle(&admin, &register_price_source(&env, 10));
    client.add_source_oracle(&admin, &env.register(PanickingPriceSource));
    client.add_source_oracle(&admin, &env.register(ErrorPriceSource));

    client.get_aggregated_price();
}

#[test]
fn test_exactly_quorum_healthy() {
    let (env, contract_id, admin, _) = setup();
    let client = SimpleOracleClient::new(&env, &contract_id);

    // 4 configured sources, 2 healthy (quorum is 2)
    client.add_source_oracle(&admin, &register_price_source(&env, 10));
    client.add_source_oracle(&admin, &register_price_source(&env, 12));
    client.add_source_oracle(&admin, &env.register(PanickingPriceSource));
    client.add_source_oracle(&admin, &env.register(ErrorPriceSource));

    assert_eq!(client.get_aggregated_price(), 11);
}

#[test]
fn test_single_source_quorum() {
    let (env, contract_id, admin, _) = setup();
    let client = SimpleOracleClient::new(&env, &contract_id);

    // 1 configured source, 1 healthy (quorum is 1)
    client.add_source_oracle(&admin, &register_price_source(&env, 42));

    assert_eq!(client.get_aggregated_price(), 42);
}

#[test]
#[should_panic]
fn no_observations_without_fallback_panics() {
    let (env, contract_id, _, _) = setup();
    SimpleOracleClient::new(&env, &contract_id).get_price();
}

#[test]
fn no_observations_uses_fallback() {
    let (env, contract_id, admin, _) = setup();
    let client = SimpleOracleClient::new(&env, &contract_id);
    client.set_fallback_price(&admin, &8);
    assert_eq!(client.get_price(), 8);
}

#[test]
#[should_panic]
fn initialize_only_once() {
    let (env, contract_id, admin, _) = setup();
    SimpleOracleClient::new(&env, &contract_id).initialize(&admin);
}

#[test]
fn configuration_defaults_are_stored_and_returned() {
    let (env, contract_id, _, _) = setup();
    let client = SimpleOracleClient::new(&env, &contract_id);

    assert_eq!(client.get_twap_window(), DEFAULT_TWAP_WINDOW);
    assert_eq!(
        client.get_staleness_threshold(),
        DEFAULT_STALENESS_THRESHOLD
    );
    assert_eq!(env.oracle.borrow().twap_window, Some(DEFAULT_TWAP_WINDOW));
    assert_eq!(
        env.oracle.borrow().staleness_threshold,
        Some(DEFAULT_STALENESS_THRESHOLD)
    );
}

#[test]
fn default_staleness_threshold_respects_max_observations_invariant() {
    let (env, contract_id, _, _) = setup();
    let client = SimpleOracleClient::new(&env, &contract_id);

    // Verify that DEFAULT_STALENESS_THRESHOLD >= MAX_OBSERVATIONS to ensure
    // the staleness check does not accept data older than the maximum TWAP window.
    assert!(
        client.get_staleness_threshold() >= MAX_OBSERVATIONS,
        "DEFAULT_STALENESS_THRESHOLD must be >= MAX_OBSERVATIONS (invariant)"
    );
    assert!(
        client.get_twap_window() <= MAX_OBSERVATIONS,
        "DEFAULT_TWAP_WINDOW must be <= MAX_OBSERVATIONS"
    );
    assert!(
        client.get_staleness_threshold() >= client.get_twap_window(),
        "Staleness threshold must be >= TWAP window"
    );
}

#[test]
fn admin_can_set_configuration() {
    let (env, contract_id, admin, _) = setup();
    let client = SimpleOracleClient::new(&env, &contract_id);

    client.set_twap_window(&admin, &5);
    client.set_staleness_threshold(&admin, &100);

    assert_eq!(client.get_twap_window(), 5);
    assert_eq!(client.get_staleness_threshold(), 100);
}

#[test]
fn twap_window_bounds_are_enforced() {
    let (env, contract_id, admin, _) = setup();
    let client = SimpleOracleClient::new(&env, &contract_id);

    assert!(client.try_set_twap_window(&admin, &0).is_err());
    client.set_twap_window(&admin, &1);
    assert_eq!(client.get_twap_window(), 1);
    client.set_twap_window(&admin, &MAX_OBSERVATIONS);
    assert_eq!(client.get_twap_window(), MAX_OBSERVATIONS);
    assert!(client
        .try_set_twap_window(&admin, &(MAX_OBSERVATIONS + 1))
        .is_err());
}

#[test]
fn staleness_threshold_bounds_are_enforced() {
    let (env, contract_id, admin, _) = setup();
    let client = SimpleOracleClient::new(&env, &contract_id);

    // Staleness threshold must be at least MAX_OBSERVATIONS (invariant enforcement).
    assert!(client
        .try_set_staleness_threshold(&admin, &(MAX_OBSERVATIONS - 1))
        .is_err());
    // At minimum, staleness threshold must equal MAX_OBSERVATIONS.
    client.set_staleness_threshold(&admin, &MAX_OBSERVATIONS);
    assert_eq!(client.get_staleness_threshold(), MAX_OBSERVATIONS);
    // Can be set higher than MAX_OBSERVATIONS.
    client.set_staleness_threshold(&admin, &u32::MAX);
    assert_eq!(client.get_staleness_threshold(), u32::MAX);
}

#[test]
fn non_admin_cannot_set_configuration() {
    let (env, contract_id, _, _) = setup();
    let client = SimpleOracleClient::new(&env, &contract_id);
    let non_admin = env.generate();

    assert!(client.try_set_twap_window(&non_admin, &5).is_err());
    assert!(client
        .try_set_staleness_threshold(&non_admin, &100)
        .is_err());
    assert_eq!(client.get_twap_window(), DEFAULT_TWAP_WINDOW);
    assert_eq!(
        client.get_staleness_threshold(),
        DEFAULT_STALENESS_THRESHOLD
    );
}

#[test]
fn configuration_setters_emit_events() {
    let (env, contract_id, admin, _) = setup();
    let client = SimpleOracleClient::new(&env, &contract_id);

    client.set_twap_window(&admin, &5);
    assert_eq!(
        env.take_events(),
        vec![OracleEvent::TwapWindowSet { admin, window: 5_u32 }]
    );

    client.set_staleness_threshold(&admin, &100);
    let events = env.take_events();
    assert_eq!(
        events,
        vec![OracleEvent::StalenessThresholdSet {
            admin,
            threshold: 100_u32
        }]
    );
    assert_eq!(events[0].topic(), "stale_th");
    assert_eq!(
        OracleEvent::<Vec<u8>>::TwapWindowSet { admin, window: 5 }.topic(),
        "twap_win"
    );
}

#[test]
fn changing_twap_window_applies_to_existing_observations() {
    let (env, contract_id, admin, reporter) = setup();
    let client = SimpleOracleClient::new(&env, &contract_id);
    add_reporter(&env, &contract_id, &admin, &reporter);

    env.set_sequence(100);
    client.report_price(&reporter, &100_000_000);
    env.set_sequence(200);
    client.report_price(&reporter, &200_000_000);
    env.set_sequence(300);
    assert_eq!(client.get_price(), 15);

    client.set_twap_window(&admin, &1);
    assert_eq!(client.get_price(), 20);
}

#[test]
fn changing_staleness_threshold_applies_immediately() {
    let (env, contract_id, admin, reporter) = setup();
    let client = SimpleOracleClient::new(&env, &contract_id);
    add_reporter(&env, &contract_id, &admin, &reporter);
    client.set_fallback_price(&admin, &5);

    env.set_sequence(100);
    client.report_price(&reporter, &80_000_000);
    env.set_sequence(111);
    assert_eq!(client.get_price(), 8);

    // Set staleness threshold to 5 to make the price stale (price at ledger 100, now at 111).
    // Note: staleness threshold must be >= MAX_OBSERVATIONS, so we use MAX_OBSERVATIONS
    // and change the ledger advance to make it stale relative to that.
    client.set_staleness_threshold(&admin, &MAX_OBSERVATIONS);
    env.set_sequence(100 + MAX_OBSERVATIONS + 1);
    assert_eq!(client.get_price(), 5);
}

#[test]
fn missing_configuration_keys_use_legacy_defaults() {
    let (env, contract_id, admin, reporter) = setup();
    let client = SimpleOracleClient::new(&env, &contract_id);
    add_reporter(&env, &contract_id, &admin, &reporter);
    client.set_fallback_price(&admin, &7);

    client.report_price(&reporter, &1_000_000_000);
    for _ in 0..DEFAULT_TWAP_WINDOW {
        client.report_price(&reporter, &100_000_000);
    }
    env.oracle.borrow_mut().twap_window = None;
    env.oracle.borrow_mut().staleness_threshold = None;

    assert_eq!(client.get_twap_window(), DEFAULT_TWAP_WINDOW);
    assert_eq!(
        client.get_staleness_threshold(),
        DEFAULT_STALENESS_THRESHOLD
    );
    env.set_sequence(DEFAULT_STALENESS_THRESHOLD);
    assert_eq!(client.get_price(), 10);
    env.set_sequence(DEFAULT_STALENESS_THRESHOLD + 1);
    assert_eq!(client.get_price(), 7);
}

#[test]
fn twap_window_cannot_exceed_staleness_threshold() {
    let (env, contract_id, admin, _) = setup();
    let client = SimpleOracleClient::new(&env, &contract_id);

    client.set_staleness_threshold(&admin, &MAX_OBSERVATIONS);
    assert!(client
        .try_set_twap_window(&admin, &(MAX_OBSERVATIONS + 1))
        .is_err());
    assert_eq!(client.get_twap_window(), DEFAULT_TWAP_WINDOW);
}

#[test]
fn one_observation_is_returned() {
    let (env, contract_id, admin, reporter) = setup();
    let client = SimpleOracleClient::new(&env, &contract_id);
    add_reporter(&env, &contract_id, &admin, &reporter);
    client.report_price(&reporter, &80_000_000);
    assert_eq!(client.get_price(), 8);
}

#[test]
fn averages_fewer_than_ten_observations() {
    let (env, contract_id, admin, reporter) = setup();
    let client = SimpleOracleClient::new(&env, &contract_id);
    add_reporter(&env, &contract_id, &admin, &reporter);
    for price in [60_000_000_i128, 90_000_000, 120_000_000] {
        client.report_price(&reporter, &price);
    }
    assert_eq!(client.get_price(), 9);
}

#[test]
fn averages_only_latest_ten_observations() {
    let (env, contract_id, admin, reporter) = setup();
    let client = SimpleOracleClient::new(&env, &contract_id);
    add_reporter(&env, &contract_id, &admin, &reporter);
    for price in 1_i128..=15 {
        client.report_price(&reporter, &(price * PRICE_SCALE));
    }
    assert_eq!(client.get_price(), 10);
}

#[test]
fn multiple_reporters_contribute_to_twap() {
    let (env, contract_id, admin, reporter_one) = setup();
    let reporter_two = env.generate();
    let client = SimpleOracleClient::new(&env, &contract_id);
    add_reporter(&env, &contract_id, &admin, &reporter_one);
    add_reporter(&env, &contract_id, &admin, &reporter_two);
    client.report_price(&reporter_one, &80_000_000);
    client.report_price(&reporter_two, &120_000_000);
    assert_eq!(client.get_price(), 10);
}

#[test]
#[should_panic]
fn non_reporter_cannot_report() {
    let (env, contract_id, _, reporter) = setup();
    SimpleOracleClient::new(&env, &contract_id).report_price(&reporter, &80_000_000);
}

#[test]
#[should_panic]
fn removed_reporter_cannot_report() {
    let (env, contract_id, admin, reporter) = setup();
    let client = SimpleOracleClient::new(&env, &contract_id);
    add_reporter(&env, &contract_id, &admin, &reporter);
    client.remove_reporter(&admin, &reporter);
    client.report_price(&reporter, &80_000_000);
}

#[test]
#[should_panic]
fn only_admin_can_add_reporter() {
    let (env, contract_id, _, reporter) = setup();
    let non_admin = env.generate();
    SimpleOracleClient::new(&env, &contract_id).add_reporter(&non_admin, &reporter);
}

#[test]
#[should_panic]
fn only_admin_can_remove_reporter() {
    let (env, contract_id, admin, reporter) = setup();
    add_reporter(&env, &contract_id, &admin, &reporter);
    let non_admin = env.generate();
    SimpleOracleClient::new(&env, &contract_id).remove_reporter(&non_admin, &reporter);
}

#[test]
#[should_panic]
fn zero_price_is_rejected() {
    let (env, contract_id, admin, reporter) = setup();
    add_reporter(&env, &contract_id, &admin, &reporter);
    SimpleOracleClient::new(&env, &contract_id).report_price(&reporter, &0);
}

#[test]
#[should_panic]
fn negative_price_is_rejected() {
    let (env, contract_id, admin, reporter) = setup();
    add_reporter(&env, &contract_id, &admin, &reporter);
    SimpleOracleClient::new(&env, &contract_id).report_price(&reporter, &-1);
}

#[test]
#[should_panic]
fn zero_fallback_is_rejected() {
    let (env, contract_id, admin, _) = setup();
    SimpleOracleClient::new(&env, &contract_id).set_fallback_price(&admin, &0);
}

#[test]
fn observation_at_staleness_threshold_is_fresh() {
    let (env, contract_id, admin, reporter) = setup();
    env.set_sequence(100);
    let client = SimpleOracleClient::new(&env, &contract_id);
    add_reporter(&env, &contract_id, &admin, &reporter);
    client.report_price(&reporter, &80_000_000);
    env.set_sequence(100 + DEFAULT_STALENESS_THRESHOLD);
    assert_eq!(client.get_price(), 8);
}

#[test]
#[should_panic]
fn stale_observation_without_fallback_panics() {
    let (env, contract_id, admin, reporter) = setup();
    env.set_sequence(100);
    let client = SimpleOracleClient::new(&env, &contract_id);
    add_reporter(&env, &contract_id, &admin, &reporter);
    client.report_price(&reporter, &80_000_000);
    env.set_sequence(101 + DEFAULT_STALENESS_THRESHOLD);
    client.get_price();
}

#[test]
fn stale_observation_uses_fallback() {
    let (env, contract_id, admin, reporter) = setup();
    env.set_sequence(100);
    let client = SimpleOracleClient::new(&env, &contract_id);
    add_reporter(&env, &contract_id, &admin, &reporter);
    client.set_fallback_price(&admin, &7);
    client.report_price(&reporter, &80_000_000);
    env.set_sequence(101 + DEFAULT_STALENESS_THRESHOLD);
    assert_eq!(client.get_price(), 7);
}

#[test]
fn newest_observation_controls_freshness() {
    let (env, contract_id, admin, reporter) = setup();
    let client = SimpleOracleClient::new(&env, &contract_id);
    add_reporter(&env, &contract_id, &admin, &reporter);
    env.set_sequence(1);
    client.report_price(&reporter, &20_000_000);
    env.set_sequence(1_000);
    client.report_price(&reporter, &100_000_000);
    // TWAP: price 2 at ledger 1 (weight 999) + price 10 at ledger 1000
    // (weight 1). TWAP ≈ (2×999 + 10×1) / 1000 = 2008/1000 ≈ 2.
    assert_eq!(client.get_price(), 2);
}

#[test]
fn circular_buffer_overwrites_after_twenty_entries() {
    let (env, contract_id, admin, reporter) = setup();
    let client = SimpleOracleClient::new(&env, &contract_id);
    add_reporter(&env, &contract_id, &admin, &reporter);
    for price in 1_i128..=25 {
        client.report_price(&reporter, &(price * PRICE_SCALE));
    }
    assert_eq!(client.get_price(), 20);
    let count: u32 = env.observation_count();
    let next_index: u32 = env.oracle.borrow().observations.next_slot();
    assert_eq!(count, MAX_OBSERVATIONS);
    assert_eq!(next_index, 5);
}

#[test]
fn twap_addition_overflow_panics() {
    let (env, contract_id, admin, reporter) = setup();
    let client = SimpleOracleClient::new(&env, &contract_id);
    add_reporter(&env, &contract_id, &admin, &reporter);
    client.report_price(&reporter, &i128::MAX);
    client.report_price(&reporter, &i128::MAX);
    assert!(client.try_get_price().is_err());
}

#[test]
fn random_sequences_stay_within_recent_min_and_max() {
    let mut state = 0x5eed_u64;
    for _ in 0..32 {
        let (env, contract_id, admin, reporter) = setup();
        let client = SimpleOracleClient::new(&env, &contract_id);
        add_reporter(&env, &contract_id, &admin, &reporter);
        let mut recent = [0_i128; DEFAULT_TWAP_WINDOW as usize];
        for index in 0..25_usize {
            state = state
                .wrapping_mul(6_364_136_223_846_793_005)
                .wrapping_add(1);
            let price = i128::from((state % 1_000) + 1);
            client.report_price(&reporter, &(price * PRICE_SCALE));
            if index >= 15 {
                recent[index - 15] = price;
            }
        }
        let twap = client.get_price();
        let min = recent.iter().copied().min().unwrap();
        let max = recent.iter().copied().max().unwrap();
        assert!(twap >= min && twap <= max);
    }
}

#[test]
fn test_twap_single_observation() {
    let (env, contract_id, admin, reporter) = setup();
    let client = SimpleOracleClient::new(&env, &contract_id);
    add_reporter(&env, &contract_id, &admin, &reporter);

    // Report one observation at price 10 XLM/USDC.
    env.set_sequence(0);
    client.report_price(&reporter, &100_000_000);

    // Advance 100 ledgers — weight = 100, TWAP = (10×100) / 100 = 10.
    env.set_sequence(100);
    assert_eq!(client.get_price(), 10);
}

#[test]
fn test_twap_multiple_observations() {
    let (env, contract_id, admin, reporter) = setup();
    let client = SimpleOracleClient::new(&env, &contract_id);
    add_reporter(&env, &contract_id, &admin, &reporter);

    // Two observations spread across ledgers.
    env.set_sequence(100);
    client.report_price(&reporter, &100_000_000); // price 10

    env.set_sequence(150);
    client.report_price(&reporter, &200_000_000); // price 20

    // Current ledger 200.
    //  weight_100 = 150 - 100 = 50
    //  weight_150 = 200 - 150 = 50
    //  TWAP = (10×50 + 20×50) / 100 = 15
    env.set_sequence(200);
    assert_eq!(client.get_price(), 15);
}

#[test]
fn test_twap_freshness_expiry() {
    let (env, contract_id, admin, reporter) = setup();
    let client = SimpleOracleClient::new(&env, &contract_id);
    add_reporter(&env, &contract_id, &admin, &reporter);

    env.set_sequence(100);
    client.report_price(&reporter, &80_000_000);

    // Set a fallback so stale observations don't panic.
    client.set_fallback_price(&admin, &5);

    // Advance past staleness threshold (720 ledgers).
    env.set_sequence(100 + DEFAULT_STALENESS_THRESHOLD + 1);
    assert_eq!(client.get_price(), 5);
}

#[test]
fn test_twap_flash_loan_resistance() {
    let (env, contract_id, admin, reporter) = setup();
    let client = SimpleOracleClient::new(&env, &contract_id);
    add_reporter(&env, &contract_id, &admin, &reporter);

    // Normal price at ledger 100.
    env.set_sequence(100);
    client.report_price(&reporter, &100_000_000); // price 10

    // Attacker submits extreme price at ledger 200.
    env.set_sequence(200);
    client.report_price(&reporter, &10_000_000_000); // price 1000

    // Advance 1 ledger — attacker's price has weight ≈ 1.
    //  weight_normal = 200 - 100 = 100
    //  weight_attack = 201 - 200 = 1
    //  TWAP ≈ (10×100 + 1000×1) / 101 = 2000/101 ≈ 19
    env.set_sequence(201);
    let twap = client.get_price();
    // (10×100 + 1000×1) / 101 = 2000 / 101 = 19 — attack negligible.
    assert_eq!(twap, 19);
}

#[test]
fn test_set_deviation_threshold() {
    let (env, contract_id, admin, _) = setup();
    let client = SimpleOracleClient::new(&env, &contract_id);
    client.set_max_price_deviation(&admin, &500);
    let stored: u32 = env.oracle.borrow().max_price_deviation_bps;
    assert_eq!(stored, 500);
}

#[test]
#[should_panic]
fn only_admin_can_set_deviation_threshold() {
    let (env, contract_id, _, _) = setup();
    let non_admin = env.generate();
    SimpleOracleClient::new(&env, &contract_id).set_max_price_deviation(&non_admin, &500);
}

#[test]
fn test_deviation_accept_within_bounds() {
    let (env, contract_id, admin, reporter) = setup();
    seed_baseline(&env, &contract_id, &admin, &reporter, 80_000_000);
    let client = SimpleOracleClient::new(&env, &contract_id);
    client.set_max_price_deviation(&admin, &500); // 5%

    // 82_000_000 vs baseline 80_000_000 → 2.5% deviation, within 5%.
    client.report_price(&reporter, &82_000_000);

    let count: u32 = env.observation_count();
    assert_eq!(count, 3);
}

#[test]
fn test_deviation_reject() {
    let (env, contract_id, admin, reporter) = setup();
    seed_baseline(&env, &contract_id, &admin, &reporter, 80_000_000);
    let client = SimpleOracleClient::new(&env, &contract_id);
    client.set_max_price_deviation(&admin, &500); // 5%

    // 90_000_000 vs baseline 80_000_000 → 12.5% deviation, exceeds 5%.
    // Rejected observations are dropped, not panicked (see comment in
    // report_price: a panic would also erase the price_rejected event).
    client.report_price(&reporter, &90_000_000);

    let count: u32 = env.observation_count();
    assert_eq!(count, 2, "rejected observation must not be stored");
}

#[test]
fn test_deviation_reject_emits_price_rejected_event() {
    let (env, contract_id, admin, reporter) = setup();
    seed_baseline(&env, &contract_id, &admin, &reporter, 80_000_000);
    let client = SimpleOracleClient::new(&env, &contract_id);
    client.set_max_price_deviation(&admin, &500);

    let events_before = env.events.borrow().len();
    client.report_price(&reporter, &90_000_000);

    let events_after = env.take_events();
    assert_eq!(
        events_after.len(),
        events_before + 1,
        "expected exactly one additional event to have been published on rejection"
    );

    let latest = events_after.last().unwrap();
    assert_eq!(latest.topic(), "price_rejected");
    assert_eq!(
        *latest,
        OracleEvent::PriceRejected {
            reporter,
            price: 90_000_000,
            current_price: 80_000_000,
            deviation_bps: 1250
        }
    );
}

#[test]
fn test_deviation_disabled_zero() {
    let (env, contract_id, admin, reporter) = setup();
    // max_price_deviation_bps defaults to 0 (never configured) — the
    // circuit breaker must be fully bypassed regardless of magnitude.
    seed_baseline(&env, &contract_id, &admin, &reporter, 80_000_000);
    let client = SimpleOracleClient::new(&env, &contract_id);

    client.report_price(&reporter, &800_000_000); // 10x the baseline

    let count: u32 = env.observation_count();
    assert_eq!(count, 3);
}

#[test]
fn test_deviation_skip_few_observations() {
    let (env, contract_id, admin, reporter) = setup();
    let client = SimpleOracleClient::new(&env, &contract_id);
    add_reporter(&env, &contract_id, &admin, &reporter);
    client.set_max_price_deviation(&admin, &500);

    // First observation: 0 prior observations — check must be skipped.
    client.report_price(&reporter, &80_000_000);
    // Second observation: only 1 prior observation — check must still
    // be skipped, even though this "deviates" wildly from the first.
    client.report_price(&reporter, &8_000_000_000);

    let count: u32 = env.observation_count();
    assert_eq!(count, 2);
}

#[test]
fn configured_twap_window_affects_deviation_baseline() {
    let (env, contract_id, admin, reporter) = setup();
    let client = SimpleOracleClient::new(&env, &contract_id);
    add_reporter(&env, &contract_id, &admin, &reporter);

    client.report_price(&reporter, &100);
    client.report_price(&reporter, &200);
    client.set_twap_window(&admin, &1);
    client.set_max_price_deviation(&admin, &3_000);
    client.report_price(&reporter, &260);

    assert_eq!(
        env.take_events().last(),
        Some(&OracleEvent::PriceUpdated {
            reporter,
            price: 260_i128,
            ledger: env.sequence()
        })
    );
    assert_eq!(env.observation_count(), 3);
    assert_eq!(
        env.oracle.borrow().observations.slot(2).unwrap().price,
        260
    );
}

#[test]
fn configured_staleness_affects_deviation_baseline_availability() {
    let (env, contract_id, admin, reporter) = setup();
    let client = SimpleOracleClient::new(&env, &contract_id);
    add_reporter(&env, &contract_id, &admin, &reporter);

    env.set_sequence(100);
    client.report_price(&reporter, &100);
    client.report_price(&reporter, &100);
    // Set staleness threshold to exactly MAX_OBSERVATIONS so it becomes stale at 100+20+1.
    client.set_staleness_threshold(&admin, &MAX_OBSERVATIONS);
    client.set_max_price_deviation(&admin, &500);
    env.set_sequence(100 + MAX_OBSERVATIONS + 1);
    client.report_price(&reporter, &1_000);

    assert_eq!(
        env.take_events().last(),
        Some(&OracleEvent::PriceUpdated {
            reporter,
            price: 1_000_i128,
            ledger: (100 + MAX_OBSERVATIONS + 1)
        })
    );
    assert_eq!(env.observation_count(), 3);
    assert_eq!(
        env.oracle.borrow().observations.slot(2).unwrap().price,
        1_000
    );
}

#[test]
fn test_stake() {
    let (env, contract_id, admin, reporter) = setup();
    let client = SimpleOracleClient::new(&env, &contract_id);
    let (stake_token, _) = setup_staking(&env, &contract_id, &admin, &reporter, 1_000, 10);

    client.stake(&reporter, &1_000);

    assert_eq!(client.get_reporter_stake(&reporter), 1_000);
    assert_eq!(
        env.balance(&stake_token, &contract_id),
        1_000
    );
    client.report_price(&reporter, &100_000_000);
}

#[test]
#[should_panic]
fn test_report_without_stake_panics() {
    let (env, contract_id, admin, reporter) = setup();
    let client = SimpleOracleClient::new(&env, &contract_id);
    setup_staking(&env, &contract_id, &admin, &reporter, 1_000, 10);
    client.report_price(&reporter, &100_000_000);
}

#[test]
fn test_slash_reduces_stake() {
    let (env, contract_id, admin, reporter) = setup();
    let client = SimpleOracleClient::new(&env, &contract_id);
    let (stake_token, treasury) =
        setup_staking(&env, &contract_id, &admin, &reporter, 1_000, 10);
    client.stake(&reporter, &1_500);

    client.slash(
        &admin,
        &reporter,
        &600,
        &text("bad price"),
    );

    assert_eq!(client.get_reporter_stake(&reporter), 900);
    assert_eq!(
        env.balance(&stake_token, &treasury),
        600
    );
    assert_eq!(client.get_slash_history(&reporter).len(), 1);
    assert!(client.try_report_price(&reporter, &100_000_000).is_err());
}

#[test]
fn test_unstake_after_cooldown() {
    let (env, contract_id, admin, reporter) = setup();
    let client = SimpleOracleClient::new(&env, &contract_id);
    let (stake_token, _) = setup_staking(&env, &contract_id, &admin, &reporter, 1_000, 10);
    let starting_balance = env.balance(&stake_token, &reporter);
    client.stake(&reporter, &1_000);
    env.set_sequence(10);

    client.unstake(&reporter);

    assert_eq!(client.get_reporter_stake(&reporter), 0);
    assert_eq!(
        env.balance(&stake_token, &reporter),
        starting_balance
    );
    assert!(client.try_report_price(&reporter, &100_000_000).is_err());
}

#[test]
#[should_panic]
fn test_unstake_before_cooldown_panics() {
    let (env, contract_id, admin, reporter) = setup();
    let client = SimpleOracleClient::new(&env, &contract_id);
    setup_staking(&env, &contract_id, &admin, &reporter, 1_000, 10);
    client.stake(&reporter, &1_000);
    client.unstake(&reporter);
}

#[test]
fn test_slash_event() {
    let (env, contract_id, admin, reporter) = setup();
    let client = SimpleOracleClient::new(&env, &contract_id);
    setup_staking(&env, &contract_id, &admin, &reporter, 1_000, 10);
    client.stake(&reporter, &1_000);
    client.slash(
        &admin,
        &reporter,
        &100,
        &text("deviation"),
    );

    let events = env.take_events();
    let latest = events.last().unwrap();
    assert_eq!(latest.topic(), "stake_slash");
    assert_eq!(
        *latest,
        OracleEvent::StakeSlashed {
            reporter,
            amount: 100,
            remaining: 900,
            reason: text("deviation")
        }
    );
}

#[test]
fn deviation_values() {
    assert_eq!(calculate_deviation_bps(100, 100), 0);
    assert_eq!(calculate_deviation_bps(110, 100), 1000);
    assert_eq!(calculate_deviation_bps(90, 100), 1000);
    assert_eq!(calculate_deviation_bps(82_000_000, 80_000_000), 250);
    assert_eq!(calculate_deviation_bps(4, 3), 3333);
    assert_eq!(calculate_deviation_bps(1, 0), u32::MAX);
    assert_eq!(calculate_deviation_bps(1, -1), u32::MAX);
    assert_eq!(calculate_deviation_bps(i128::MIN, 1), u32::MAX);
    assert_eq!(calculate_deviation_bps(i128::MIN, i128::MAX), u32::MAX);
    assert_eq!(calculate_deviation_bps(i128::MAX, i128::MAX - 1), 0);
    assert_eq!(calculate_deviation_bps(1_000_000, 1), u32::MAX);
    assert_eq!(calculate_deviation_bps(429_497, 1), 4_294_960_000);
}

#[test]
fn deviation_agrees_with_unsigned_arithmetic() {
    let mut state = 0x1234_5678_9abc_u64;
    for _ in 0..2048 {
        state = state.wrapping_mul(6_364_136_223_846_793_005).wrapping_add(1);
        let current = i128::from(state % 1_000_000_000_000 + 1);
        state = state.wrapping_mul(6_364_136_223_846_793_005).wrapping_add(1);
        let new = i128::from(state % 1_000_000_000_000 + 1);
        let expected = new
            .abs_diff(current)
            .checked_mul(10_000)
            .map(|scaled| scaled / (current as u128))
            .and_then(|v| u32::try_from(v).ok())
            .unwrap_or(u32::MAX);
        assert_eq!(calculate_deviation_bps(new, current), expected);
    }
}

fn observation(price: i128, ledger: u32) -> PriceObservation {
    PriceObservation {
        price,
        reporter: Address::Account([1u8; 32]),
        ledger,
    }
}

#[test]
fn weights_are_the_ledgers_until_the_next() {
    let window = vec![observation(10, 100), observation(20, 130), observation(40, 130)];
    // 30 ledgers, then none and so one, then 70 until now.
    assert_eq!(weigh(&window, 200), Ok((10 * 30 + 20 + 40 * 70, 101)));
    assert_eq!(weigh(&Vec::new(), 5), Ok((0, 0)));
    assert_eq!(
        weigh(&vec![observation(i128::MAX, 0)], 2),
        Err(OracleTrap::TwapMultiplicationOverflow)
    );
    assert_eq!(
        weigh(&vec![observation(i128::MAX, 0), observation(1, 0)], 0),
        Err(OracleTrap::TwapOverflow)
    );
    assert_eq!(divide(-7, 2), -3);
    assert_eq!(divide(7, 2), 3);
}

#[test]
fn ring_keeps_the_newest() {
    let mut ring = ObservationRing::new();
    assert_eq!(ring.latest(), None);
    for i in 1..=23u32 {
        ring.push(observation(i128::from(i), i));
    }
    assert_eq!(ring.len(), MAX_OBSERVATIONS);
    assert_eq!(ring.next_slot(), 3);
    assert_eq!(ring.latest().unwrap().price, 23);
    let prices: Vec<i128> = ring.recent(3).iter().map(|o| o.price).collect();
    assert_eq!(prices, vec![21, 22, 23]);
    let all: Vec<i128> = ring.recent(50).iter().map(|o| o.price).collect();
    assert_eq!(all, (4..=23).collect::<Vec<i128>>());
    assert_eq!(ring.slot(0).unwrap().price, 21);
}

#[test]
fn ring_is_made_up_of_its_parts() {
    let mut ring = ObservationRing::new();
    for i in 1..=23u32 {
        ring.push(observation(i128::from(i), i));
    }
    let slots: Vec<Option<PriceObservation>> = (0..MAX_OBSERVATIONS).map(|i| ring.slot(i)).collect();
    let copy = ObservationRing::from_parts(slots.clone(), ring.len(), ring.next_slot()).unwrap();
    assert_eq!(copy.recent(20), ring.recent(20));
    let mut gap = slots.clone();
    gap[7] = None;
    assert!(ObservationRing::from_parts(gap, 20, 3).is_none());
    assert!(ObservationRing::from_parts(slots.clone(), 21, 3).is_none());
    assert!(ObservationRing::from_parts(slots.clone(), 20, 20).is_none());
    assert!(ObservationRing::from_parts(slots[1..].to_vec(), 3, 3).is_none());
}

#[test]
fn skipped_sources_are_told_with_their_reasons() {
    let (env, contract_id, admin, _) = setup();
    let client = SimpleOracleClient::new(&env, &contract_id);
    let good = register_price_source(&env, 10);
    let zero = register_price_source(&env, 0);
    let wrong = env.register(IncompatiblePriceSource);
    let broken = env.register(PanickingPriceSource);
    let failing = env.register(ErrorPriceSource);
    let better = register_price_source(&env, 13);
    for source in [good, zero, wrong, broken, failing, better] {
        client.add_source_oracle(&admin, &source);
    }
    assert_eq!(client.get_aggregated_price(), 11);
    let reasons: Vec<(Address, u32)> = env
        .skips
        .borrow()
        .iter()
        .map(|skip| (skip.source, skip.reason.code()))
        .collect();
    assert_eq!(
        reasons,
        vec![(zero, 41), (wrong, 40), (broken, 42), (failing, 42)]
    );
}

#[test]
fn an_account_is_no_source_of_prices() {
    let (env, contract_id, admin, _) = setup();
    let client = SimpleOracleClient::new(&env, &contract_id);
    client.add_source_oracle(&admin, &register_price_source(&env, 10));
    client.add_source_oracle(&admin, &Address::Account([1u8; 32]));
    assert_eq!(
        client.try_get_aggregated_price(),
        Err(OracleFailure::Trap(OracleTrap::SourceIsNoContract))
    );
}

#[test]
fn aggregates_of_given_replies() {
    let a = Address::Contract([1u8; 32]);
    let sources = vec![a, a, a, a];
    assert_eq!(
        aggregate(
            &sources,
            &vec![
                SourceReply::Price(9),
                SourceReply::Failed,
                SourceReply::Price(4),
                SourceReply::Price(100)
            ]
        ),
        Ok((
            9,
            vec![SourceSkip {
                source: a,
                reason: OracleError::SourceOracleReturnedUnexpectedType
            }]
        ))
    );
    let (price, skips) = aggregate(
        &sources,
        &vec![
            SourceReply::Price(8),
            SourceReply::Price(3),
            SourceReply::Price(-1),
            SourceReply::Unconvertible,
        ],
    )
    .unwrap();
    assert_eq!(price, 5);
    assert_eq!(skips.len(), 2);
    assert_eq!(
        aggregate(
            &sources,
            &vec![
                SourceReply::Price(8),
                SourceReply::Failed,
                SourceReply::Failed,
                SourceReply::Failed
            ]
        ),
        Err(OracleError::SourceOracleAggregationFailed)
    );
    assert_eq!(
        aggregate(&vec![a], &vec![SourceReply::Price(8)]),
        Ok((8, Vec::new()))
    );
    assert_eq!(
        aggregate(&vec![a], &vec![SourceReply::Price(0)]),
        Err(OracleError::SourceOracleAggregationFailed)
    );
}

#[test]
fn below_quorum_is_an_error() {
    let (env, contract_id, admin, _) = setup();
    let client = SimpleOracleClient::new(&env, &contract_id);
    client.add_source_oracle(&admin, &register_price_source(&env, 10));
    client.add_source_oracle(&admin, &env.register(PanickingPriceSource));
    assert_eq!(
        client.try_get_aggregated_price(),
        Err(OracleFailure::Error(OracleError::SourceOracleAggregationFailed))
    );
}

#[test]
fn probe_takes_any_reply() {
    let env = World::new();
    for target in [
        register_price_source(&env, 10),
        env.register(PanickingPriceSource),
        env.register(IncompatiblePriceSource),
        env.generate(),
    ] {
        Dummy::test(&env.sdk, &target);
    }
}

#[test]
fn oracle_admin_errors() {
    let env = World::new();
    let client = SimpleOracleClient::new(&env, &env.id);
    let admin = env.generate();
    let other = env.generate();
    assert_eq!(
        client.try_add_reporter(&admin, &other),
        Err(OracleFailure::Trap(OracleTrap::NotInitialized))
    );
    client.initialize(&admin);
    assert_eq!(
        env.oracle.borrow_mut().initialize(other),
        error(OracleError::ContractAlreadyInitialized)
    );
    assert_eq!(
        client.try_add_reporter(&other, &other),
        error(OracleError::OnlyAdminCanPerformThisAction)
    );
    assert_eq!(
        client.try_set_fallback_price(&admin, &0),
        error(OracleError::FallbackPriceMustBePositive)
    );
    assert_eq!(
        client.try_set_twap_window(&admin, &0),
        error(OracleError::TwapWindowMustBeAtLeastOne)
    );
    assert_eq!(
        client.try_set_twap_window(&admin, &21),
        error(OracleError::TwapWindowExceedsMaximum)
    );
    assert_eq!(
        client.try_set_staleness_threshold(&admin, &9),
        error(OracleError::StalenessThresholdMustBeAtLeastTwapWindow)
    );
    assert_eq!(
        client.try_set_staleness_threshold(&admin, &19),
        error(OracleError::InvalidConfiguration)
    );
    env.oracle.borrow_mut().staleness_threshold = Some(5);
    assert_eq!(
        client.try_set_twap_window(&admin, &6),
        error(OracleError::TwapWindowExceedsStalenessThreshold)
    );
    assert_eq!(
        client.try_add_source_oracle(&admin, &env.id),
        error(OracleError::CannotRegisterOracleAsItsOwnSource)
    );
    for _ in 0..MAX_SOURCE_ORACLES {
        client.add_source_oracle(&admin, &env.generate());
    }
    assert_eq!(
        client.try_add_source_oracle(&admin, &env.generate()),
        error(OracleError::SourceOracleLimitExceeded)
    );
}

#[test]
fn staking_errors() {
    let (env, contract_id, admin, reporter) = setup();
    let client = SimpleOracleClient::new(&env, &contract_id);
    let token = env.generate();
    let treasury = env.generate();
    assert_eq!(
        client.try_configure_staking(&admin, &token, &0, &treasury, &1),
        error(OracleError::MinimumStakeMustBePositive)
    );
    assert_eq!(
        client.try_configure_staking(&admin, &token, &1, &treasury, &0),
        error(OracleError::UnstakeCooldownMustBePositive)
    );
    assert_eq!(
        client.try_stake(&reporter, &0),
        error(OracleError::StakeAmountMustBePositive)
    );
    assert_eq!(
        client.try_stake(&reporter, &1),
        error(OracleError::NotAnAuthorisedReporter)
    );
    client.add_reporter(&admin, &reporter);
    assert_eq!(
        client.try_stake(&reporter, &1),
        Err(OracleFailure::Trap(OracleTrap::StakingNotConfigured))
    );
    assert_eq!(
        client.try_unstake(&reporter),
        error(OracleError::NoReporterStake)
    );
    client.configure_staking(&admin, &token, &100, &treasury, &DEFAULT_UNSTAKE_COOLDOWN);
    env.set_balance(&token, &reporter, 1000);
    client.stake(&reporter, &100);
    assert_eq!(
        client.try_stake(&reporter, &i128::MAX),
        Err(OracleFailure::Trap(OracleTrap::ReporterStakeOverflow))
    );
    env.set_sequence(u32::MAX - DEFAULT_UNSTAKE_COOLDOWN + 1);
    assert_eq!(
        client.try_stake(&reporter, &1),
        Err(OracleFailure::Trap(OracleTrap::StakeCooldownOverflow))
    );
    env.set_sequence(DEFAULT_UNSTAKE_COOLDOWN - 1);
    assert_eq!(
        client.try_unstake(&reporter),
        error(OracleError::UnstakeCooldownNotReached)
    );
    assert_eq!(
        client.try_slash(&reporter, &reporter, &1, &text("x")),
        error(OracleError::OnlyAdminCanPerformThisAction)
    );
    assert_eq!(
        client.try_slash(&admin, &reporter, &0, &text("x")),
        error(OracleError::SlashAmountMustBePositive)
    );
    assert_eq!(
        client.try_slash(&admin, &reporter, &101, &text("x")),
        error(OracleError::SlashAmountExceedsReporterStake)
    );
    env.oracle.borrow_mut().stake_available_at.remove(&reporter);
    assert_eq!(
        client.try_unstake(&reporter),
        Err(OracleFailure::Trap(OracleTrap::StakeCooldownNotSet))
    );
}

#[test]
fn stakes_and_transfers_agree() {
    let (env, contract_id, admin, reporter) = setup();
    let client = SimpleOracleClient::new(&env, &contract_id);
    let (token, treasury) = setup_staking(&env, &contract_id, &admin, &reporter, 1_000, 10);
    env.take_events();
    env.set_sequence(5);
    client.stake(&reporter, &1_200);
    client.stake(&reporter, &300);
    env.set_sequence(7);
    client.slash(&admin, &reporter, &200, &text("late"));
    client.slash(&admin, &reporter, &1, &text("again"));
    assert_eq!(
        client.get_slash_history(&reporter),
        vec![
            SlashEvent {
                amount: 200,
                reason: text("late"),
                ledger: 7
            },
            SlashEvent {
                amount: 1,
                reason: text("again"),
                ledger: 7
            }
        ]
    );
    env.set_sequence(15);
    client.unstake(&reporter);
    assert_eq!(env.balance(&token, &treasury), 201);
    assert_eq!(env.balance(&token, &reporter), 3_000 - 201);
    assert_eq!(env.balance(&token, &contract_id), 0);
    let events = env.take_events();
    assert_eq!(
        events[1],
        OracleEvent::StakeDeposited {
            reporter,
            amount: 300,
            total: 1_500,
            available_at: 15
        }
    );
    assert_eq!(events[1].topic(), "stake_dep");
    assert_eq!(
        events[4],
        OracleEvent::StakeWithdrawn {
            reporter,
            amount: 1_299
        }
    );
    assert_eq!(events[4].topic(), "stake_wdr");
    assert_eq!(
        client.try_unstake(&reporter),
        error(OracleError::NoReporterStake)
    );
}

#[test]
fn report_errors() {
    let (env, contract_id, admin, reporter) = setup();
    let client = SimpleOracleClient::new(&env, &contract_id);
    assert_eq!(
        client.try_report_price(&reporter, &1),
        error(OracleError::NotAnAuthorisedReporter)
    );
    setup_staking(&env, &contract_id, &admin, &reporter, 10, 10);
    assert_eq!(
        client.try_report_price(&reporter, &1),
        error(OracleError::ReporterStakeBelowMinimum)
    );
    client.stake(&reporter, &10);
    assert_eq!(
        client.try_report_price(&reporter, &0),
        error(OracleError::PriceMustBePositive)
    );
    assert_eq!(
        client.try_get_price(),
        Err(OracleFailure::Trap(OracleTrap::NoObservationsAndNoFallback))
    );
    client.report_price(&reporter, &i128::MAX);
    client.report_price(&reporter, &i128::MAX);
    client.set_max_price_deviation(&admin, &1);
    assert_eq!(
        client.try_report_price(&reporter, &1),
        Err(OracleFailure::Trap(OracleTrap::TwapOverflow))
    );
    env.set_sequence(2);
    assert_eq!(
        client.try_get_price(),
        Err(OracleFailure::Trap(OracleTrap::TwapMultiplicationOverflow))
    );
    env.set_sequence(DEFAULT_STALENESS_THRESHOLD + 1);
    assert_eq!(
        client.try_get_price(),
        Err(OracleFailure::Trap(OracleTrap::StaleAndNoFallback))
    );
}

#[test]
fn empty_window_needs_a_fallback() {
    let (env, contract_id, admin, reporter) = setup();
    let client = SimpleOracleClient::new(&env, &contract_id);
    add_reporter(&env, &contract_id, &admin, &reporter);
    client.report_price(&reporter, &(5 * PRICE_SCALE));
    env.oracle.borrow_mut().twap_window = Some(0);
    assert_eq!(
        client.try_get_price(),
        Err(OracleFailure::Trap(OracleTrap::ZeroWeightAndNoFallback))
    );
    client.set_fallback_price(&admin, &3);
    assert_eq!(client.get_price(), 3);
    assert_eq!(env.oracle.borrow().current_price_raw(0), Ok(None));
}

#[test]
fn current_price_is_not_scaled() {
    let (env, contract_id, admin, reporter) = setup();
    let client = SimpleOracleClient::new(&env, &contract_id);
    assert_eq!(env.oracle.borrow().current_price_raw(0), Ok(None));
    add_reporter(&env, &contract_id, &admin, &reporter);
    client.report_price(&reporter, &150);
    env.set_sequence(3);
    client.report_price(&reporter, &250);
    assert_eq!(env.oracle.borrow().current_price_raw(4), Ok(Some(175)));
    assert_eq!(
        env.oracle.borrow().current_price_raw(4 + DEFAULT_STALENESS_THRESHOLD),
        Ok(None)
    );
}

#[test]
fn reports_at_the_limit_are_taken() {
    let (env, contract_id, admin, reporter) = setup();
    seed_baseline(&env, &contract_id, &admin, &reporter, 80_000_000);
    let client = SimpleOracleClient::new(&env, &contract_id);
    client.set_max_price_deviation(&admin, &500);
    client.report_price(&reporter, &84_000_000);
    assert_eq!(env.observation_count(), 3);
    env.take_events();
    client.report_price(&reporter, &70_000_000);
    assert_eq!(env.observation_count(), 3);
    assert_eq!(env.take_events()[0].topic(), "price_rejected");
}

#[test]
fn oracle_error_codes() {
    assert_eq!(OracleError::ContractAlreadyInitialized.code(), 1);
    assert_eq!(OracleError::ReporterStakeBelowMinimum.code(), 17);
    assert_eq!(OracleError::SourceOracleUnresponsive.code(), 40);
    assert_eq!(OracleError::AggregationResultInvalid.code(), 50);
    for code in 1..=50u32 {
        assert_eq!(OracleError::from_code(code).unwrap().code(), code);
    }
    assert_eq!(OracleError::from_code(0), None);
    assert_eq!(OracleError::from_code(51), None);
    assert_eq!(OracleTrap::NotInitialized.message(), "Oracle not initialized");
    assert_eq!(
        OracleTrap::ZeroWeightAndNoFallback.message(),
        "Zero-weight TWAP — fallback required"
    );
}

#[test]
fn reporters_come_and_go() {
    let (env, contract_id, admin, reporter) = setup();
    let client = SimpleOracleClient::new(&env, &contract_id);
    client.add_reporter(&admin, &reporter);
    client.remove_reporter(&admin, &reporter);
    let events = env.take_events();
    assert_eq!(events[0].topic(), "rep_add");
    assert_eq!(events[1], OracleEvent::ReporterRemoved { admin, reporter });
    assert_eq!(events[1].topic(), "rep_rem");
    assert_eq!(
        client.try_report_price(&reporter, &1),
        error(OracleError::NotAnAuthorisedReporter)
    );
}

#[test]
fn removed_source_leaves_the_others_in_order() {
    let (env, contract_id, admin, _) = setup();
    let client = SimpleOracleClient::new(&env, &contract_id);
    let a = env.generate();
    let b = env.generate();
    let c = env.generate();
    for source in [a, b, c] {
        client.add_source_oracle(&admin, &source);
    }
    client.remove_source_oracle(&admin, &b);
    assert_eq!(source_list(&env, &contract_id), vec![a, c]);
    client.add_source_oracle(&admin, &b);
    client.remove_source_oracle(&admin, &b);
    assert_eq!(source_list(&env, &contract_id), vec![a, c]);
}

#[test]
fn a_source_is_asked_for_its_own_price() {
    let env = World::new();
    let first = env.register(FixedPriceSource(7));
    let second = env.register(FixedPriceSource(8));
    let other = env.register(IncompatiblePriceSource);
    let down = env.register(ErrorPriceSource);
    assert_eq!(
        ask_for_price(&env.sdk, &first),
        Some(SourceReply::Price(7))
    );
    assert_eq!(
        ask_for_price(&env.sdk, &second),
        Some(SourceReply::Price(8))
    );
    assert_eq!(
        ask_for_price(&env.sdk, &other),
        Some(SourceReply::Unconvertible)
    );
    assert_eq!(ask_for_price(&env.sdk, &down), Some(SourceReply::Failed));
    assert_eq!(ask_for_price(&env.sdk, &Address::Account([1u8; 32])), None);
}

#[test]
fn a_report_fills_the_next_slot_only() {
    let (env, contract_id, admin, reporter) = setup();
    let client = SimpleOracleClient::new(&env, &contract_id);
    add_reporter(&env, &contract_id, &admin, &reporter);
    for price in 1_i128..=22 {
        client.report_price(&reporter, &price);
    }
    let before: Vec<Option<PriceObservation>> = (0..MAX_OBSERVATIONS)
        .map(|i| env.oracle.borrow().observations.slot(i))
        .collect();
    assert_eq!(env.oracle.borrow().observations.next_slot(), 2);
    client.report_price(&reporter, &23);
    for i in 0..MAX_OBSERVATIONS {
        let slot = env.oracle.borrow().observations.slot(i);
        if i == 2 {
            assert_eq!(slot.unwrap().price, 23);
        } else {
            assert_eq!(slot, before[i as usize]);
        }
    }
    assert_eq!(env.oracle.borrow().observations.next_slot(), 3);
    // A rejected report leaves the slots alone.
    client.set_max_price_deviation(&admin, &100);
    client.report_price(&reporter, &1_000);
    assert_eq!(env.oracle.borrow().observations.next_slot(), 3);
    assert_eq!(
        env.oracle.borrow().observations.slot(3),
        before[3]
    );
    let mut ring = ObservationRing::new();
    ring.push(before[0].unwrap());
    ring.restart();
    assert_eq!(ring.len(), 0);
    assert_eq!(ring.next_slot(), 0);
    assert_eq!(ring.slot(0), before[0]);
}
