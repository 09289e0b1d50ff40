use std::cell::{Cell, RefCell};

use indigopay::address::Address;
use indigopay::context::{CallContext, TokenTransfer};
use indigopay::donation::error::{DonationError, DonationFailure, DonationTrap};
use indigopay::donation::events::{
    emit_stealth_donation, emit_stealth_scan, emit_stealth_withdrawal, DonationEvent,
};
use indigopay::donation::state::{DonationContract, StealthDonation};
use soroban_sdk::testutils::EnvTestConfig;

/// A host that leaves no snapshot of its ledger behind.
fn quiet_env() -> soroban_sdk::Env {
    soroban_sdk::Env::new_with_config(EnvTestConfig {
        capture_snapshot_at_drop: false,
    })
}

/// The contract on a ledger with token balances. Whoever calls is taken to be authenticated.
struct World {
    sdk: soroban_sdk::Env,
    id: Address,
    timestamp: Cell<u64>,
    generated: Cell<u32>,
    balances: RefCell<Vec<(Address, Address, i128)>>,
    contract: RefCell<DonationContract>,
    events: RefCell<Vec<DonationEvent>>,
}

impl World {
    fn new() -> Self {
        World {
            sdk: quiet_env(),
            id: Address::Contract([9u8; 32]),
            timestamp: Cell::new(0),
            generated: Cell::new(0),
            balances: RefCell::new(Vec::new()),
            contract: RefCell::new(DonationContract::new()),
            events: RefCell::new(Vec::new()),
        }
    }

    fn generate(&self) -> Address {
        let n = self.generated.get() + 1;
        self.generated.set(n);
        let mut key = [0u8; 32];
        key[..4].copy_from_slice(&n.to_be_bytes());
        Address::Account(key)
    }

    fn ctx(&self) -> CallContext {
        CallContext {
            contract: self.id,
            sequence: 0,
            timestamp: self.timestamp.get(),
        }
    }

    fn balance(&self, token: &Address, holder: &Address) -> i128 {
        self.balances
            .borrow()
            .iter()
            .find(|(t, h, _)| t == token && h == holder)
            .map(|(_, _, amount)| *amount)
            .unwrap_or(0)
    }

    fn set_balance(&self, token: &Address, holder: &Address, amount: i128) {
        let mut balances = self.balances.borrow_mut();
        balances.retain(|(t, h, _)| !(t == token && h == holder));
        balances.push((*token, *holder, amount));
    }

    fn mint(&self, token: &Address, holder: &Address, amount: i128) {
        self.set_balance(token, holder, self.balance(token, holder) + amount);
    }

    fn transfer(&self, t: &TokenTransfer) {
        let from = self.balance(&t.token, &t.from);
        if t.amount < 0 || from < t.amount {
            panic!("the balance is not sufficient");
        }
        self.set_balance(&t.token, &t.from, from - t.amount);
        let to = self.balance(&t.token, &t.to);
        self.set_balance(&t.token, &t.to, to + t.amount);
    }

    fn create_token(&self, donor: &Address, amount: i128) -> Address {
        let token = self.generate();
        self.mint(&token, donor, amount);
        token
    }

    fn generate_stealth_address(&self, project: &Address, ephem: &[u8; 33]) -> [u8; 32] {
        DonationContract::generate_stealth_address(&self.sdk, project, ephem)
    }

    fn donate_stealth(
        &self,
        donor: &Address,
        token: &Address,
        ephem: &[u8; 33],
        project: &Address,
        amount: &i128,
        msg_hash: &[u8; 32],
    ) -> u64 {
        let (id, receipt) = self
            .contract
            .borrow_mut()
            .donate_stealth(
                &self.sdk,
                &self.ctx(),
                *donor,
                *token,
                *ephem,
                *project,
                *amount,
                *msg_hash,
            )
            .unwrap();
        self.transfer(&receipt.transfer);
        self.events.borrow_mut().push(receipt.event);
        id
    }

    fn scan_stealth_donations(&self, project: &Address, key: &[u8; 32]) -> Vec<StealthDonation> {
        let (donations, event) = self
            .contract
            .borrow()
            .scan_stealth_donations(&self.ctx(), project, key);
        self.events.borrow_mut().push(event);
        donations
    }

    fn try_withdraw_stealth_donations(
        &self,
        project: &Address,
        token: &Address,
        amount: &i128,
    ) -> Result<i128, DonationFailure> {
        let (remaining, receipt) = self.contract.borrow_mut().withdraw_stealth_donations(
            &self.ctx(),
            *project,
            *token,
            *amount,
        )?;
        self.transfer(&receipt.transfer);
        self.events.borrow_mut().push(receipt.event);
        Ok(remaining)
    }

    fn withdraw_stealth_donations(&self, project: &Address, token: &Address, amount: &i128) -> i128 {
        self.try_withdraw_stealth_donations(project, token, amount)
            .unwrap()
    }

    fn get_stealth_withdrawable_balance(&self, project: &Address, token: &Address) -> i128 {
        self.contract
            .borrow()
            .get_stealth_withdrawable_balance(project, token)
    }

    fn get_stealth_donation(&self, id: &u64) -> Option<StealthDonation> {
        self.contract.borrow().get_stealth_donation(*id)
    }

    fn last_event(&self) -> DonationEvent {
        *self.events.borrow().last().unwrap()
    }
}

#[test]
fn test_generate_stealth_address_deterministic() {
    let env = World::new();
    let project = env.generate();
    let ephem = [1u8; 33];

    let addr1 = env.generate_stealth_address(&project, &ephem);
    let addr2 = env.generate_stealth_address(&project, &ephem);

    assert_eq!(addr1, addr2);
}

#[test]
fn test_generate_stealth_address_different_keys() {
    let env = World::new();
    let project = env.generate();
    let ephem1 = [1u8; 33];
    let ephem2 = [2u8; 33];

    let addr1 = env.generate_stealth_address(&project, &ephem1);
    let addr2 = env.generate_stealth_address(&project, &ephem2);

    assert_ne!(addr1, addr2);
}

#[test]
fn test_donate_stealth() {
    let env = World::new();
    let donor = env.generate();
    let project = env.generate();
    let token = env.create_token(&donor, 10_000_000);
    let ephem = [42u8; 33];
    let msg_hash = [0u8; 32];
    let amount: i128 = 5_000_000;

    let donation_id = env.donate_stealth(&donor, &token, &ephem, &project, &amount, &msg_hash);

    assert_eq!(donation_id, 1u64);

    let stored = env.get_stealth_donation(&1).unwrap();
    assert_eq!(stored.amount, amount);
    assert_eq!(stored.project_wallet, project);
    assert_eq!(stored.ephemeral_pubkey, ephem);
    assert_eq!(stored.msg_hash, msg_hash);

    assert_eq!(env.get_stealth_withdrawable_balance(&project, &token), amount);
}

fn seed_donations(env: &World) -> (Address, [u8; 32]) {
    let donor1 = env.generate();
    let donor2 = env.generate();
    let project = env.generate();
    let viewing_key = [99u8; 32];
    let token = env.create_token(&donor1, 10_000_000);
    env.mint(&token, &donor2, 10_000_000);
    let ephem1 = [10u8; 33];
    let ephem2 = [20u8; 33];
    let msg_hash = [0u8; 32];

    env.donate_stealth(&donor1, &token, &ephem1, &project, &3_000_000, &msg_hash);
    env.donate_stealth(&donor2, &token, &ephem2, &project, &7_000_000, &msg_hash);

    (project, viewing_key)
}

fn assert_stealth_scan_event(env: &World, project: &Address, donation_count: usize, timestamp: u64) {
    let event = env.last_event();
    assert_eq!(event.topic(), "StlthScn");
    assert_eq!(
        event,
        DonationEvent::Scan {
            project_wallet: *project,
            donation_count,
            timestamp
        }
    );
}

#[test]
fn test_scan_stealth_donations() {
    let env = World::new();
    let (project, viewing_key) = seed_donations(&env);
    env.timestamp.set(1_234_567);

    let donations = env.scan_stealth_donations(&project, &viewing_key);

    assert_eq!(donations.len(), 2);
    assert_eq!(donations.get(0).unwrap().amount, 3_000_000);
    assert_eq!(donations.get(1).unwrap().amount, 7_000_000);
    assert_stealth_scan_event(&env, &project, 2, 1_234_567);
}

#[test]
fn test_scan_stealth_donations_empty() {
    let env = World::new();
    let project = env.generate();
    let viewing_key = [0u8; 32];
    env.timestamp.set(7_654_321);

    let donations = env.scan_stealth_donations(&project, &viewing_key);

    assert_eq!(donations.len(), 0);
    assert_stealth_scan_event(&env, &project, 0, 7_654_321);
}

#[test]
fn test_scan_with_missing_donation_is_graceful() {
    let env = World::new();
    let donor1 = env.generate();
    let donor2 = env.generate();
    let project = env.generate();
    let viewing_key = [99u8; 32];
    let token = env.create_token(&donor1, 10_000_000);
    env.mint(&token, &donor2, 10_000_000);
    let ephem1 = [10u8; 33];
    let ephem2 = [20u8; 33];
    let msg_hash = [0u8; 32];

    env.donate_stealth(&donor1, &token, &ephem1, &project, &3_000_000, &msg_hash);
    env.contract.borrow_mut().add_project_donation(&project, 999);
    env.donate_stealth(&donor2, &token, &ephem2, &project, &7_000_000, &msg_hash);
    assert!(env.get_stealth_donation(&999).is_none());

    let donations = env.scan_stealth_donations(&project, &viewing_key);

    assert_eq!(donations.len(), 2);
    assert_eq!(donations.get(0).unwrap().amount, 3_000_000);
    assert_eq!(donations.get(1).unwrap().amount, 7_000_000);
}

#[test]
fn test_stealth_address_unlinkability() {
    let env = World::new();
    let project = env.generate();

    let ephem_alice = [100u8; 33];
    let ephem_bob = [200u8; 33];

    let alice_stealth = env.generate_stealth_address(&project, &ephem_alice);
    let bob_stealth = env.generate_stealth_address(&project, &ephem_bob);

    assert_ne!(alice_stealth, bob_stealth);
}

#[test]
fn test_withdraw_stealth_donations_full() {
    let env = World::new();
    let donor = env.generate();
    let project = env.generate();
    let token = env.create_token(&donor, 10_000_000);
    let ephem = [1u8; 33];
    let msg_hash = [0u8; 32];
    let amount: i128 = 5_000_000;

    env.donate_stealth(&donor, &token, &ephem, &project, &amount, &msg_hash);
    assert_eq!(env.get_stealth_withdrawable_balance(&project, &token), amount);

    let remaining = env.withdraw_stealth_donations(&project, &token, &amount);

    assert_eq!(remaining, 0);
    assert_eq!(env.get_stealth_withdrawable_balance(&project, &token), 0);
    assert_eq!(env.balance(&token, &env.id), 0);
    assert_eq!(env.balance(&token, &project), amount);
}

#[test]
fn test_withdraw_stealth_donations_partial() {
    let env = World::new();
    let donor = env.generate();
    let project = env.generate();
    let token = env.create_token(&donor, 10_000_000);
    let ephem = [1u8; 33];
    let msg_hash = [0u8; 32];

    env.donate_stealth(&donor, &token, &ephem, &project, &5_000_000, &msg_hash);

    let remaining = env.withdraw_stealth_donations(&project, &token, &2_000_000);
    assert_eq!(remaining, 3_000_000);
    assert_eq!(
        env.get_stealth_withdrawable_balance(&project, &token),
        3_000_000
    );
    assert_eq!(env.balance(&token, &project), 2_000_000);
    assert_eq!(env.balance(&token, &env.id), 3_000_000);

    let remaining = env.withdraw_stealth_donations(&project, &token, &3_000_000);
    assert_eq!(remaining, 0);
    assert_eq!(env.balance(&token, &project), 5_000_000);
    assert_eq!(env.balance(&token, &env.id), 0);
}

#[test]
fn test_withdraw_stealth_donations_aggregates_multiple_donations() {
    let env = World::new();
    let donor1 = env.generate();
    let donor2 = env.generate();
    let project = env.generate();
    let token = env.create_token(&donor1, 10_000_000);
    env.mint(&token, &donor2, 10_000_000);
    let ephem1 = [10u8; 33];
    let ephem2 = [20u8; 33];
    let msg_hash = [0u8; 32];

    env.donate_stealth(&donor1, &token, &ephem1, &project, &3_000_000, &msg_hash);
    env.donate_stealth(&donor2, &token, &ephem2, &project, &7_000_000, &msg_hash);
    assert_eq!(
        env.get_stealth_withdrawable_balance(&project, &token),
        10_000_000
    );

    let remaining = env.withdraw_stealth_donations(&project, &token, &10_000_000);
    assert_eq!(remaining, 0);
    assert_eq!(env.balance(&token, &project), 10_000_000);
    assert_eq!(env.balance(&token, &env.id), 0);
}

#[test]
fn test_withdraw_stealth_donations_per_token_accounting() {
    let env = World::new();
    let donor = env.generate();
    let project = env.generate();
    let token_a = env.create_token(&donor, 10_000_000);
    let token_b = env.create_token(&donor, 10_000_000);
    let ephem = [1u8; 33];
    let msg_hash = [0u8; 32];

    env.donate_stealth(&donor, &token_a, &ephem, &project, &3_000_000, &msg_hash);
    env.donate_stealth(&donor, &token_b, &ephem, &project, &4_000_000, &msg_hash);

    let remaining = env.withdraw_stealth_donations(&project, &token_a, &3_000_000);
    assert_eq!(remaining, 0);
    assert_eq!(env.get_stealth_withdrawable_balance(&project, &token_a), 0);
    assert_eq!(
        env.get_stealth_withdrawable_balance(&project, &token_b),
        4_000_000
    );
    assert_eq!(env.balance(&token_a, &project), 3_000_000);
    assert_eq!(env.balance(&token_a, &env.id), 0);
    assert_eq!(env.balance(&token_b, &env.id), 4_000_000);
}

#[test]
fn test_withdraw_stealth_donations_emits_event() {
    let env = World::new();
    let donor = env.generate();
    let project = env.generate();
    let token = env.create_token(&donor, 10_000_000);
    let ephem = [3u8; 33];
    let msg_hash = [0u8; 32];

    env.donate_stealth(&donor, &token, &ephem, &project, &5_000_000, &msg_hash);
    env.timestamp.set(2_468_000);

    let remaining = env.withdraw_stealth_donations(&project, &token, &2_000_000);

    assert_eq!(remaining, 3_000_000);
    let event = env.last_event();
    assert_eq!(event.topic(), "StlthWdr");
    assert_eq!(
        event,
        DonationEvent::Withdrawal {
            project_wallet: project,
            token,
            amount: 2_000_000,
            remaining_balance: 3_000_000,
            timestamp: 2_468_000
        }
    );
}

#[test]
fn test_withdraw_stealth_donations_zero_amount_rejected() {
    let env = World::new();
    let donor = env.generate();
    let project = env.generate();
    let token = env.create_token(&donor, 10_000_000);
    let ephem = [1u8; 33];
    let msg_hash = [0u8; 32];
    env.donate_stealth(&donor, &token, &ephem, &project, &5_000_000, &msg_hash);

    let result = env.try_withdraw_stealth_donations(&project, &token, &0i128);
    assert!(result.is_err(), "zero-amount withdrawal must be rejected");
    assert_eq!(
        result,
        Err(DonationFailure::Error(
            DonationError::WithdrawalAmountMustBePositive
        ))
    );
    assert_eq!(
        env.get_stealth_withdrawable_balance(&project, &token),
        5_000_000
    );
}

#[test]
fn test_withdraw_stealth_donations_insufficient_balance_rejected() {
    let env = World::new();
    let donor = env.generate();
    let project = env.generate();
    let token = env.create_token(&donor, 10_000_000);
    let ephem = [1u8; 33];
    let msg_hash = [0u8; 32];
    env.donate_stealth(&donor, &token, &ephem, &project, &5_000_000, &msg_hash);

    let result = env.try_withdraw_stealth_donations(&project, &token, &6_000_000i128);
    assert!(result.is_err(), "over-balance withdrawal must be rejected");
    assert_eq!(
        result,
        Err(DonationFailure::Error(
            DonationError::InsufficientStealthWithdrawableBalance
        ))
    );

    assert_eq!(
        env.get_stealth_withdrawable_balance(&project, &token),
        5_000_000
    );
    assert_eq!(env.balance(&token, &project), 0);
    assert_eq!(env.balance(&token, &env.id), 5_000_000);
}

/// The SHA-256 digest of a byte string, by the host alone.
fn digest(data: &[u8]) -> [u8; 32] {
    let env = quiet_env();
    let bytes = soroban_sdk::Bytes::from_slice(&env, data);
    env.crypto().sha256(&bytes).to_array()
}

#[test]
fn stealth_address_is_the_digest_of_wallet_and_key() {
    let env = World::new();
    let ephem = [5u8; 33];
    let mut account = vec![0u8, 0, 0, 18, 0, 0, 0, 0, 0, 0, 0, 0];
    account.extend([7u8; 32]);
    account.extend(ephem);
    assert_eq!(
        env.generate_stealth_address(&Address::Account([7u8; 32]), &ephem),
        digest(&account)
    );
    let mut contract = vec![0u8, 0, 0, 18, 0, 0, 0, 1];
    contract.extend([7u8; 32]);
    contract.extend(ephem);
    assert_eq!(
        env.generate_stealth_address(&Address::Contract([7u8; 32]), &ephem),
        digest(&contract)
    );
}

#[test]
fn digest_of_the_empty_string() {
    // The well-known first and last bytes of SHA-256 of nothing.
    let d = digest(&[]);
    assert_eq!(d[0], 0xe3);
    assert_eq!(d[1], 0xb0);
    assert_eq!(d[31], 0x55);
}

#[test]
fn recorded_donation_is_stored_as_given() {
    let env = World::new();
    let donor = env.generate();
    let project = env.generate();
    let token = env.generate();
    env.timestamp.set(77);
    let (id, receipt) = env
        .contract
        .borrow_mut()
        .record_donation(
            &env.ctx(),
            donor,
            token,
            [1u8; 33],
            project,
            500,
            [2u8; 32],
            [3u8; 32],
        )
        .unwrap();
    assert_eq!(id, 1);
    assert_eq!(
        receipt.transfer,
        TokenTransfer {
            token,
            from: donor,
            to: env.id,
            amount: 500
        }
    );
    assert_eq!(receipt.event.topic(), "StelthDn");
    assert_eq!(
        receipt.event,
        DonationEvent::Donation {
            donation_id: 1,
            project_wallet: project,
            amount: 500,
            ephemeral_pubkey: [1u8; 33],
            msg_hash: [2u8; 32],
            timestamp: 77
        }
    );
    assert_eq!(
        env.get_stealth_donation(&1),
        Some(StealthDonation {
            stealth_address: [3u8; 32],
            project_wallet: project,
            ephemeral_pubkey: [1u8; 33],
            amount: 500,
            msg_hash: [2u8; 32]
        })
    );
    assert_eq!(env.contract.borrow().get_project_donations(&project), vec![1]);
    assert_eq!(env.contract.borrow().get_stealth_counter(), 1);
}

#[test]
fn donations_stop_at_the_limits() {
    let env = World::new();
    let a = env.generate();
    let record = |amount: i128| {
        env.contract.borrow_mut().record_donation(
            &env.ctx(),
            a,
            a,
            [1u8; 33],
            a,
            amount,
            [2u8; 32],
            [3u8; 32],
        )
    };
    record(i128::MAX).unwrap();
    assert_eq!(
        record(1),
        Err(DonationFailure::Trap(DonationTrap::StealthBalanceOverflow))
    );
    env.contract.borrow_mut().set_stealth_counter(u64::MAX);
    assert_eq!(
        record(0),
        Err(DonationFailure::Trap(DonationTrap::StealthCounterOverflow))
    );
    assert_eq!(
        record(1),
        Err(DonationFailure::Trap(DonationTrap::StealthBalanceOverflow))
    );
    assert_eq!(env.contract.borrow().get_project_donations(&a), vec![1]);
    assert_eq!(
        DonationTrap::StealthCounterOverflow.message(),
        "attempt to add with overflow"
    );
}

#[test]
fn scans_show_each_project_its_own_donations() {
    let env = World::new();
    let donor = env.generate();
    let p = env.generate();
    let q = env.generate();
    let token = env.create_token(&donor, 100);
    for (project, amount) in [(p, 1), (q, 2), (p, 3)] {
        env.donate_stealth(&donor, &token, &[1u8; 33], &project, &amount, &[0u8; 32]);
    }
    let amounts = |project: &Address| -> Vec<i128> {
        env.scan_stealth_donations(project, &[0u8; 32])
            .iter()
            .map(|d| d.amount)
            .collect()
    };
    assert_eq!(amounts(&p), vec![1, 3]);
    assert_eq!(amounts(&q), vec![2]);
}

#[test]
fn events_carry_the_time() {
    let env = World::new();
    env.timestamp.set(11);
    let w = env.generate();
    let t = env.generate();
    assert_eq!(
        emit_stealth_scan(&env.ctx(), &w, 4),
        DonationEvent::Scan {
            project_wallet: w,
            donation_count: 4,
            timestamp: 11
        }
    );
    assert_eq!(
        emit_stealth_withdrawal(&env.ctx(), &w, &t, 5, 6),
        DonationEvent::Withdrawal {
            project_wallet: w,
            token: t,
            amount: 5,
            remaining_balance: 6,
            timestamp: 11
        }
    );
    assert_eq!(
        emit_stealth_donation(&env.ctx(), 1, &w, 2, &[3u8; 33], &[4u8; 32]),
        DonationEvent::Donation {
            donation_id: 1,
            project_wallet: w,
            amount: 2,
            ephemeral_pubkey: [3u8; 33],
            msg_hash: [4u8; 32],
            timestamp: 11
        }
    );
}

#[test]
fn donation_error_codes() {
    assert_eq!(DonationError::WithdrawalAmountMustBePositive.code(), 1);
    assert_eq!(
        DonationError::InsufficientStealthWithdrawableBalance.code(),
        2
    );
    for code in 1..=2u32 {
        assert_eq!(DonationError::from_code(code).unwrap().code(), code);
    }
    assert_eq!(DonationError::from_code(3), None);
}
