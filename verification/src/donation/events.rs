//! What a call on the donation contract announces and asks for.

use vstd::prelude::*;

use crate::address::Address;
use crate::context::{CallContext, TokenTransfer};

verus! {

/// What a call announces.
#[derive(Clone, Copy, Debug, PartialEq, Eq)]
pub enum DonationEvent {
    Donation {
        donation_id: u64,
        project_wallet: Address,
        amount: i128,
        ephemeral_pubkey: [u8; 33],
        msg_hash: [u8; 32],
        timestamp: u64,
    },
    Scan { project_wallet: Address, donation_count: usize, timestamp: u64 },
    Withdrawal {
        project_wallet: Address,
        token: Address,
        amount: i128,
        remaining_balance: i128,
        timestamp: u64,
    },
}

impl DonationEvent {
    /// The name under which an event is published.
    pub open spec fn spec_topic(self) -> Seq<char> {
        match self {
            DonationEvent::Donation { .. } => "StelthDn"@,
            DonationEvent::Scan { .. } => "StlthScn"@,
            DonationEvent::Withdrawal { .. } => "StlthWdr"@,
        }
    }

    /// The name under which this event is published.
    pub fn topic(&self) -> (r: &'static str)
        ensures
            r@ == self.spec_topic(),
    {
        match self {
            DonationEvent::Donation { .. } => "StelthDn",
            DonationEvent::Scan { .. } => "StlthScn",
            DonationEvent::Withdrawal { .. } => "StlthWdr",
        }
    }
}

/// What a call that moves tokens announces and asks for.
#[derive(Clone, Copy, Debug, PartialEq, Eq)]
pub struct DonationReceipt {
    pub transfer: TokenTransfer,
    pub event: DonationEvent,
}

/// The event of a donation.
pub fn emit_stealth_donation(
    ctx: &CallContext,
    donation_id: u64,
    project_wallet: &Address,
    amount: i128,
    ephemeral_pubkey: &[u8; 33],
    msg_hash: &[u8; 32],
) -> (r: DonationEvent)
    ensures
        r == (DonationEvent::Donation {
            donation_id,
            project_wallet: *project_wallet,
            amount,
            ephemeral_pubkey: *ephemeral_pubkey,
            msg_hash: *msg_hash,
            timestamp: ctx.timestamp,
        }),
{
    DonationEvent::Donation {
        donation_id,
        project_wallet: *project_wallet,
        amount,
        ephemeral_pubkey: *ephemeral_pubkey,
        msg_hash: *msg_hash,
        timestamp: ctx.timestamp,
    }
}

/// The event of a scan.
pub fn emit_stealth_scan(ctx: &CallContext, project_wallet: &Address, donation_count: usize) -> (r:
    DonationEvent)
    ensures
        r == (DonationEvent::Scan {
            project_wallet: *project_wallet,
            donation_count,
            timestamp: ctx.timestamp,
        }),
{
    DonationEvent::Scan {
        project_wallet: *project_wallet,
        donation_count,
        timestamp: ctx.timestamp,
    }
}

/// The event of a withdrawal.
pub fn emit_stealth_withdrawal(
    ctx: &CallContext,
    project_wallet: &Address,
    token: &Address,
    amount: i128,
    remaining_balance: i128,
) -> (r: DonationEvent)
    ensures
        r == (DonationEvent::Withdrawal {
            project_wallet: *project_wallet,
            token: *token,
            amount,
            remaining_balance,
            timestamp: ctx.timestamp,
        }),
{
    DonationEvent::Withdrawal {
        project_wallet: *project_wallet,
        token: *token,
        amount,
        remaining_balance,
        timestamp: ctx.timestamp,
    }
}

/// The name under which each event is published.
pub proof fn law_donation_topics(event: DonationEvent)
    ensures
        event is Donation ==> event.spec_topic() == "StelthDn"@,
        event is Scan ==> event.spec_topic() == "StlthScn"@,
        event is Withdrawal ==> event.spec_topic() == "StlthWdr"@,
{
}

} // verus!
