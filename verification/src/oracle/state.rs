//! The state of the price oracle.

use vstd::prelude::*;

use crate::address::Address;
use crate::bytes::copy_bytes;
use crate::oracle::ring;
use crate::oracle::ring::{ObservationRing, PriceObservation};
use crate::table::Table;

verus! {

/// The greatest number of source oracles.
pub const MAX_SOURCE_ORACLES: u32 = 7;

/// The number of observations that are averaged unless another one is set. It does not exceed
/// `MAX_OBSERVATIONS`.
pub const DEFAULT_TWAP_WINDOW: u32 = 10;

/// The number of ledgers after which a price is stale unless another one is set: about 600 seconds at
/// 5 seconds a ledger.
pub const DEFAULT_STALENESS_THRESHOLD: u32 = 120;

/// The usual number of ledgers that a stake is locked for: a week at 5 seconds a ledger.
pub const DEFAULT_UNSTAKE_COOLDOWN: u32 = 120_960;

/// A stake that was taken away, and why.
#[derive(Debug, PartialEq, Eq)]
pub struct SlashEvent {
    pub amount: i128,
    pub reason: Vec<u8>,
    pub ledger: u32,
}

/// What a slash event is.
#[verifier::ext_equal]
pub struct SlashModel {
    pub amount: i128,
    pub reason: Seq<u8>,
    pub ledger: u32,
}

impl View for SlashEvent {
    type V = SlashModel;

    open spec fn view(&self) -> SlashModel {
        SlashModel { amount: self.amount, reason: self.reason@, ledger: self.ledger }
    }
}

impl Clone for SlashEvent {
    fn clone(&self) -> (r: Self)
        ensures
            r@ == self@,
    {
        SlashEvent { amount: self.amount, reason: copy_bytes(&self.reason), ledger: self.ledger }
    }
}

/// The slash events of a reporter, from the oldest to the newest.
pub struct SlashHistory {
    pub events: Vec<SlashEvent>,
}

/// What a list of slash events is.
pub open spec fn slashes_model(events: Seq<SlashEvent>) -> Seq<SlashModel> {
    Seq::new(events.len(), |i: int| events[i]@)
}

impl View for SlashHistory {
    type V = Seq<SlashModel>;

    open spec fn view(&self) -> Seq<SlashModel> {
        slashes_model(self.events@)
    }
}

/// A copy of a list of slash events.
pub fn copy_slashes(events: &Vec<SlashEvent>) -> (r: Vec<SlashEvent>)
    ensures
        slashes_model(r@) == slashes_model(events@),
{
    let mut out: Vec<SlashEvent> = Vec::new();
    let mut i: usize = 0;
    while i < events.len()
        invariant
            i <= events.len(),
            out@.len() == i,
            forall|j: int| 0 <= j < i ==> (#[trigger] out@[j])@ == events@[j]@,
        decreases events.len() - i,
    {
        out.push(events[i].clone());
        i = i + 1;
    }
    assert(slashes_model(out@) =~= slashes_model(events@));
    out
}

/// What reporters have to stake, and where slashed stakes go.
#[derive(Clone, Copy, Debug, PartialEq, Eq)]
pub struct StakingConfig {
    pub token: Address,
    pub min_stake: i128,
    pub treasury: Address,
    pub unstake_cooldown: u32,
}

/// The price oracle.
pub struct SimpleOracle {
    pub admin: Option<Address>,
    pub observations: ObservationRing,
    pub reporters: Table<Address, bool>,
    pub fallback_price: Option<i128>,
    /// The greatest deviation of a reported price, in basis points; zero for any.
    pub max_price_deviation_bps: u32,
    /// How many observations are averaged, where that was set.
    pub twap_window: Option<u32>,
    /// After how many ledgers a price is stale, where that was set.
    pub staleness_threshold: Option<u32>,
    pub source_registered: Table<Address, bool>,
    pub sources: Vec<Address>,
    pub staking: Option<StakingConfig>,
    pub stakes: Table<Address, i128>,
    /// The ledger from which on a reporter may withdraw its stake.
    pub stake_available_at: Table<Address, u32>,
    pub slash_histories: Table<Address, SlashHistory>,
}

/// What the state of the price oracle is.
#[verifier::ext_equal]
pub struct OracleModel {
    pub admin: Option<Address>,
    /// The observations, from the oldest to the newest.
    pub observations: Seq<PriceObservation>,
    /// Where they stand, and what is left in the other slots.
    pub slots: Seq<Option<PriceObservation>>,
    /// The slot that the next observation goes to.
    pub next_slot: u32,
    pub reporters: Map<Address, bool>,
    pub fallback_price: Option<i128>,
    pub max_price_deviation_bps: u32,
    pub twap_window: u32,
    pub staleness_threshold: u32,
    pub source_registered: Map<Address, bool>,
    pub sources: Seq<Address>,
    pub staking: Option<StakingConfig>,
    pub stakes: Map<Address, i128>,
    pub stake_available_at: Map<Address, u32>,
    pub slash_histories: Map<Address, Seq<SlashModel>>,
}

impl View for SimpleOracle {
    type V = OracleModel;

    open spec fn view(&self) -> OracleModel {
        OracleModel {
            admin: self.admin,
            observations: self.observations@,
            slots: self.observations.spec_slots(),
            next_slot: self.observations.spec_next(),
            reporters: self.reporters@,
            fallback_price: self.fallback_price,
            max_price_deviation_bps: self.max_price_deviation_bps,
            twap_window: match self.twap_window {
                Some(window) => window,
                None => DEFAULT_TWAP_WINDOW,
            },
            staleness_threshold: match self.staleness_threshold {
                Some(threshold) => threshold,
                None => DEFAULT_STALENESS_THRESHOLD,
            },
            source_registered: self.source_registered@,
            sources: self.sources@,
            staking: self.staking,
            stakes: self.stakes@,
            stake_available_at: self.stake_available_at@,
            slash_histories: self.slash_histories@,
        }
    }
}

/// The state before the first call.
pub open spec fn empty_state() -> OracleModel {
    OracleModel {
        admin: None,
        observations: Seq::empty(),
        slots: ring::empty_slots(),
        next_slot: 0,
        reporters: Map::empty(),
        fallback_price: None,
        max_price_deviation_bps: 0,
        twap_window: DEFAULT_TWAP_WINDOW,
        staleness_threshold: DEFAULT_STALENESS_THRESHOLD,
        source_registered: Map::empty(),
        sources: Seq::empty(),
        staking: None,
        stakes: Map::empty(),
        stake_available_at: Map::empty(),
        slash_histories: Map::empty(),
    }
}

impl SimpleOracle {
    /// The oracle before the first call.
    pub fn new() -> (r: Self)
        ensures
            r@ == empty_state(),
    {
        SimpleOracle {
            admin: None,
            observations: ObservationRing::new(),
            reporters: Table::new(),
            fallback_price: None,
            max_price_deviation_bps: 0,
            twap_window: None,
            staleness_threshold: None,
            source_registered: Table::new(),
            sources: Vec::new(),
            staking: None,
            stakes: Table::new(),
            stake_available_at: Table::new(),
            slash_histories: Table::new(),
        }
    }
}

/// What the state is told by its fields. A window and a threshold that were not set are 10 and 120.
pub proof fn law_what_the_state_is(o: SimpleOracle)
    ensures
        o@.admin == o.admin,
        o@.observations == o.observations@,
        o@.slots == o.observations.spec_slots(),
        o@.next_slot == o.observations.spec_next(),
        o@.reporters == o.reporters@,
        o@.fallback_price == o.fallback_price,
        o@.max_price_deviation_bps == o.max_price_deviation_bps,
        o.twap_window matches Some(w) ==> o@.twap_window == w,
        o.twap_window is None ==> o@.twap_window == 10,
        o.staleness_threshold matches Some(t) ==> o@.staleness_threshold == t,
        o.staleness_threshold is None ==> o@.staleness_threshold == 120,
        o@.source_registered == o.source_registered@,
        o@.sources == o.sources@,
        o@.staking == o.staking,
        o@.stakes == o.stakes@,
        o@.stake_available_at == o.stake_available_at@,
        o@.slash_histories == o.slash_histories@,
{
}

/// A list of slash events is told by each of them, and each by its fields.
pub proof fn law_what_a_slash_history_is(history: SlashHistory, i: int)
    ensures
        history@.len() == history.events@.len(),
        0 <= i < history.events@.len() ==> history@[i].amount == history.events@[i].amount
            && history@[i].reason == history.events@[i].reason@ && history@[i].ledger
            == history.events@[i].ledger,
        slashes_model(history.events@) == history@,
{
}

} // verus!
