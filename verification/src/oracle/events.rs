//! What a call on the price oracle announces and asks for.

use vstd::prelude::*;

use crate::address::Address;
use crate::context::TokenTransfer;

verus! {

/// What a call announces. `T` is the type of texts: byte vectors in code, byte sequences in
/// contracts.
#[derive(Debug, PartialEq, Eq)]
pub enum OracleEvent<T> {
    ReporterAdded { admin: Address, reporter: Address },
    ReporterRemoved { admin: Address, reporter: Address },
    StakeDeposited { reporter: Address, amount: i128, total: i128, available_at: u32 },
    StakeWithdrawn { reporter: Address, amount: i128 },
    StakeSlashed { reporter: Address, amount: i128, remaining: i128, reason: T },
    PriceRejected { reporter: Address, price: i128, current_price: i128, deviation_bps: u32 },
    PriceUpdated { reporter: Address, price: i128, ledger: u32 },
    TwapWindowSet { admin: Address, window: u32 },
    StalenessThresholdSet { admin: Address, threshold: u32 },
}

impl<T> OracleEvent<T> {
    /// The name under which an event is published.
    pub open spec fn spec_topic(self) -> Seq<char> {
        match self {
            OracleEvent::ReporterAdded { .. } => "rep_add"@,
            OracleEvent::ReporterRemoved { .. } => "rep_rem"@,
            OracleEvent::StakeDeposited { .. } => "stake_dep"@,
            OracleEvent::StakeWithdrawn { .. } => "stake_wdr"@,
            OracleEvent::StakeSlashed { .. } => "stake_slash"@,
            OracleEvent::PriceRejected { .. } => "price_rejected"@,
            OracleEvent::PriceUpdated { .. } => "price_upd"@,
            OracleEvent::TwapWindowSet { .. } => "twap_win"@,
            OracleEvent::StalenessThresholdSet { .. } => "stale_th"@,
        }
    }

    /// The name under which this event is published.
    pub fn topic(&self) -> (r: &'static str)
        ensures
            r@ == self.spec_topic(),
    {
        match self {
            OracleEvent::ReporterAdded { .. } => "rep_add",
            OracleEvent::ReporterRemoved { .. } => "rep_rem",
            OracleEvent::StakeDeposited { .. } => "stake_dep",
            OracleEvent::StakeWithdrawn { .. } => "stake_wdr",
            OracleEvent::StakeSlashed { .. } => "stake_slash",
            OracleEvent::PriceRejected { .. } => "price_rejected",
            OracleEvent::PriceUpdated { .. } => "price_upd",
            OracleEvent::TwapWindowSet { .. } => "twap_win",
            OracleEvent::StalenessThresholdSet { .. } => "stale_th",
        }
    }
}

impl View for OracleEvent<Vec<u8>> {
    type V = OracleEvent<Seq<u8>>;

    open spec fn view(&self) -> OracleEvent<Seq<u8>> {
        match *self {
            OracleEvent::ReporterAdded { admin, reporter } => OracleEvent::ReporterAdded { admin, reporter },
            OracleEvent::ReporterRemoved { admin, reporter } => OracleEvent::ReporterRemoved { admin, reporter },
            OracleEvent::StakeDeposited { reporter, amount, total, available_at } => OracleEvent::StakeDeposited { reporter, amount, total, available_at },
            OracleEvent::StakeWithdrawn { reporter, amount } => OracleEvent::StakeWithdrawn { reporter, amount },
            OracleEvent::StakeSlashed { reporter, amount, remaining, reason } => OracleEvent::StakeSlashed { reporter, amount, remaining, reason: reason@ },
            OracleEvent::PriceRejected { reporter, price, current_price, deviation_bps } => OracleEvent::PriceRejected { reporter, price, current_price, deviation_bps },
            OracleEvent::PriceUpdated { reporter, price, ledger } => OracleEvent::PriceUpdated { reporter, price, ledger },
            OracleEvent::TwapWindowSet { admin, window } => OracleEvent::TwapWindowSet { admin, window },
            OracleEvent::StalenessThresholdSet { admin, threshold } => OracleEvent::StalenessThresholdSet { admin, threshold },
        }
    }
}

/// What a call that went through announces and asks for: first an event, where there is one, and
/// last a token movement, where there is one.
#[derive(Debug, PartialEq, Eq)]
pub struct OracleReceipt<T> {
    pub event: Option<OracleEvent<T>>,
    pub transfer: Option<TokenTransfer>,
}

impl View for OracleReceipt<Vec<u8>> {
    type V = OracleReceipt<Seq<u8>>;

    open spec fn view(&self) -> OracleReceipt<Seq<u8>> {
        OracleReceipt {
            event: match self.event {
                Some(e) => Some(e@),
                None => None,
            },
            transfer: self.transfer,
        }
    }
}

/// The name under which each event is published.
pub proof fn law_oracle_topics<T>(event: OracleEvent<T>)
    ensures
        event is ReporterAdded ==> event.spec_topic() == "rep_add"@,
        event is ReporterRemoved ==> event.spec_topic() == "rep_rem"@,
        event is StakeDeposited ==> event.spec_topic() == "stake_dep"@,
        event is StakeWithdrawn ==> event.spec_topic() == "stake_wdr"@,
        event is StakeSlashed ==> event.spec_topic() == "stake_slash"@,
        event is PriceRejected ==> event.spec_topic() == "price_rejected"@,
        event is PriceUpdated ==> event.spec_topic() == "price_upd"@,
        event is TwapWindowSet ==> event.spec_topic() == "twap_win"@,
        event is StalenessThresholdSet ==> event.spec_topic() == "stale_th"@,
{
}

/// What an event says is told by its fields.
pub proof fn law_what_oracle_events_say(event: OracleEvent<Vec<u8>>)
    ensures
        event matches OracleEvent::ReporterAdded { admin, reporter } ==> event@ == (OracleEvent::<Seq<u8>>::ReporterAdded { admin, reporter }),
        event matches OracleEvent::ReporterRemoved { admin, reporter } ==> event@ == (OracleEvent::<Seq<u8>>::ReporterRemoved { admin, reporter }),
        event matches OracleEvent::StakeDeposited { reporter, amount, total, available_at } ==> event@ == (OracleEvent::<Seq<u8>>::StakeDeposited { reporter, amount, total, available_at }),
        event matches OracleEvent::StakeWithdrawn { reporter, amount } ==> event@ == (OracleEvent::<Seq<u8>>::StakeWithdrawn { reporter, amount }),
        event matches OracleEvent::StakeSlashed { reporter, amount, remaining, reason } ==> event@ == (OracleEvent::<Seq<u8>>::StakeSlashed { reporter, amount, remaining, reason: reason@ }),
        event matches OracleEvent::PriceRejected { reporter, price, current_price, deviation_bps } ==> event@ == (OracleEvent::<Seq<u8>>::PriceRejected { reporter, price, current_price, deviation_bps }),
        event matches OracleEvent::PriceUpdated { reporter, price, ledger } ==> event@ == (OracleEvent::<Seq<u8>>::PriceUpdated { reporter, price, ledger }),
        event matches OracleEvent::TwapWindowSet { admin, window } ==> event@ == (OracleEvent::<Seq<u8>>::TwapWindowSet { admin, window }),
        event matches OracleEvent::StalenessThresholdSet { admin, threshold } ==> event@ == (OracleEvent::<Seq<u8>>::StalenessThresholdSet { admin, threshold }),
{
}

/// What a receipt says is told by its fields.
pub proof fn law_what_oracle_receipts_say(r: OracleReceipt<Vec<u8>>)
    ensures
        r.event is None <==> r@.event is None,
        r.event matches Some(e) ==> r@.event == Some(e@),
        r@.transfer == r.transfer,
{
}

} // verus!
