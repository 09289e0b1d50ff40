//! What each call does to the state of the donation contract, and when it is refused.

use vstd::prelude::*;

use crate::address::Address;
use crate::arithmetic;
use crate::context::{CallContext, TokenTransfer};
use crate::donation::error::{DonationError, DonationFailure, DonationTrap};
use crate::donation::events::{DonationEvent, DonationReceipt};
use crate::donation::state;
use crate::donation::state::{DonationModel, StealthDonation};
use crate::host;

verus! {

/// What the one-time address of a donation is the digest of: the wallet, in its XDR form, and the
/// ephemeral key.
pub open spec fn stealth_preimage(
    project_wallet: Address,
    ephemeral_pubkey: [u8; 33],
) -> Seq<u8> {
    host::address_xdr(project_wallet) + ephemeral_pubkey@
}

/// The one-time address of a donation.
pub open spec fn stealth_address(
    project_wallet: Address,
    ephemeral_pubkey: [u8; 33],
) -> Seq<u8> {
    host::sha256_digest(stealth_preimage(project_wallet, ephemeral_pubkey))
}

/// The outcome of a donation: the next state, the id of the donation, and what is announced and asked
/// for, or why it is refused.
pub type DonateStep = Result<(DonationModel, u64, DonationReceipt), DonationFailure>;

/// The outcome of a donation under the one-time address `address`: the amount is to move from the
/// sender to the contract, the project has that much more to withdraw, and the donation is stored
/// under the next id and listed for the project.
pub open spec fn donate_step(
    s: DonationModel,
    ctx: CallContext,
    sender: Address,
    token: Address,
    ephemeral_pubkey: [u8; 33],
    project_wallet: Address,
    amount: i128,
    msg_hash: [u8; 32],
    address: [u8; 32],
) -> DonateStep {
    let balance = state::balance_of(s, project_wallet, token) + amount;
    if !arithmetic::fits_i128(balance) {
        Err(DonationFailure::Trap(DonationTrap::StealthBalanceOverflow))
    } else if s.counter == u64::MAX {
        Err(DonationFailure::Trap(DonationTrap::StealthCounterOverflow))
    } else {
        let id = (s.counter + 1) as u64;
        let donation = StealthDonation {
            stealth_address: address,
            project_wallet,
            ephemeral_pubkey,
            amount,
            msg_hash,
        };
        Ok(
            (
                DonationModel {
                    counter: id,
                    donations: s.donations.insert(id, donation),
                    project_donations: s.project_donations.insert(
                        project_wallet,
                        state::ids_of(s, project_wallet).push(id),
                    ),
                    balances: s.balances.insert((project_wallet, token), balance as i128),
                },
                id,
                DonationReceipt {
                    transfer: TokenTransfer { token, from: sender, to: ctx.contract, amount },
                    event: DonationEvent::Donation {
                        donation_id: id,
                        project_wallet,
                        amount,
                        ephemeral_pubkey,
                        msg_hash,
                        timestamp: ctx.timestamp,
                    },
                },
            ),
        )
    }
}

/// A donation returned `r` and left the state `after`, as `step` says.
pub open spec fn donated(
    step: DonateStep,
    before: DonationModel,
    after: DonationModel,
    r: Result<(u64, DonationReceipt), DonationFailure>,
) -> bool {
    match step {
        Ok((next, id, receipt)) => r == Ok::<(u64, DonationReceipt), DonationFailure>((id, receipt))
            && after == next,
        Err(f) => r == Err::<(u64, DonationReceipt), DonationFailure>(f) && after == before,
    }
}

/// The stored ones among the donations with the given ids, in their order.
pub open spec fn stored_donations(s: DonationModel, ids: Seq<u64>) -> Seq<StealthDonation>
    decreases ids.len(),
{
    if ids.len() == 0 {
        Seq::empty()
    } else {
        let rest = stored_donations(s, ids.drop_last());
        if s.donations.contains_key(ids.last()) {
            rest.push(s.donations[ids.last()])
        } else {
            rest
        }
    }
}

/// The outcome of a withdrawal: the next state, what remains, and what is announced and asked for, or
/// why it is refused.
pub type WithdrawStep = Result<(DonationModel, i128, DonationReceipt), DonationFailure>;

/// The outcome of a withdrawal: the project has that much less to withdraw, and the amount is to move
/// to its wallet.
pub open spec fn withdraw_step(
    s: DonationModel,
    ctx: CallContext,
    project_wallet: Address,
    token: Address,
    amount: i128,
) -> WithdrawStep {
    let balance = state::balance_of(s, project_wallet, token);
    if amount <= 0 {
        Err(DonationFailure::Error(DonationError::WithdrawalAmountMustBePositive))
    } else if amount > balance {
        Err(DonationFailure::Error(DonationError::InsufficientStealthWithdrawableBalance))
    } else {
        let remaining = (balance - amount) as i128;
        Ok(
            (
                state::with_balance(s, project_wallet, token, remaining),
                remaining,
                DonationReceipt {
                    transfer: TokenTransfer {
                        token,
                        from: ctx.contract,
                        to: project_wallet,
                        amount,
                    },
                    event: DonationEvent::Withdrawal {
                        project_wallet,
                        token,
                        amount,
                        remaining_balance: remaining,
                        timestamp: ctx.timestamp,
                    },
                },
            ),
        )
    }
}

/// A withdrawal returned `r` and left the state `after`, as `step` says.
pub open spec fn withdrawn(
    step: WithdrawStep,
    before: DonationModel,
    after: DonationModel,
    r: Result<(i128, DonationReceipt), DonationFailure>,
) -> bool {
    match step {
        Ok((next, remaining, receipt)) => r == Ok::<(i128, DonationReceipt), DonationFailure>(
            (remaining, receipt),
        ) && after == next,
        Err(f) => r == Err::<(i128, DonationReceipt), DonationFailure>(f) && after == before,
    }
}

} // verus!
