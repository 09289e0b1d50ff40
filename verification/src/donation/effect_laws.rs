//! What each call on the donation contract is for: when it goes through, what it changes, announces
//! and moves, told by the arguments alone.

use vstd::prelude::*;

use crate::address::Address;
use crate::context::{CallContext, TokenTransfer};
use crate::donation::error::{DonationError, DonationFailure, DonationTrap};
use crate::donation::events::{DonationEvent, DonationReceipt};
use crate::donation::state;
use crate::donation::state::{DonationModel, StealthDonation};
use crate::donation::transitions;

verus! {

/// What a project has to withdraw in a token, which is nothing where nothing was ever given.
pub open spec fn held(s: DonationModel, wallet: Address, token: Address) -> i128 {
    if s.balances.contains_key((wallet, token)) {
        s.balances[(wallet, token)]
    } else {
        0
    }
}

/// The numbers of the donations to a project, which are none where nothing was ever given.
pub open spec fn listed(s: DonationModel, wallet: Address) -> Seq<u64> {
    if s.project_donations.contains_key(wallet) {
        s.project_donations[wallet]
    } else {
        Seq::empty()
    }
}

/// What is read of a project is what is stored, or nothing, and what is set is what is read, of that
/// project and that token alone.
pub proof fn law_what_is_read_of_a_project(
    s: DonationModel,
    wallet: Address,
    token: Address,
    balance: i128,
    id: u64,
)
    ensures
        state::balance_of(s, wallet, token) == held(s, wallet, token),
        state::ids_of(s, wallet) == listed(s, wallet),
        state::with_balance(s, wallet, token, balance) == (DonationModel {
            balances: s.balances.insert((wallet, token), balance),
            ..s
        }),
        state::with_project_donation(s, wallet, id) == (DonationModel {
            project_donations: s.project_donations.insert(wallet, listed(s, wallet).push(id)),
            ..s
        }),
        state::empty_state() == (DonationModel {
            counter: 0,
            donations: Map::empty(),
            project_donations: Map::empty(),
            balances: Map::empty(),
        }),
{
}

/// What a donation or a withdrawal returned and left behind is what its step says.
pub proof fn law_calls_do_what_their_steps_say(
    donation: transitions::DonateStep,
    withdrawal: transitions::WithdrawStep,
    before: DonationModel,
    after: DonationModel,
    id: Result<(u64, DonationReceipt), DonationFailure>,
    left: Result<(i128, DonationReceipt), DonationFailure>,
)
    ensures
        transitions::donated(donation, before, after, id) ==> {
            &&& donation is Ok <==> id is Ok
            &&& donation is Ok ==> id->Ok_0.0 == donation->Ok_0.1 && id->Ok_0.1
                == donation->Ok_0.2 && after == donation->Ok_0.0
            &&& donation is Err ==> id->Err_0 == donation->Err_0 && after == before
        },
        transitions::withdrawn(withdrawal, before, after, left) ==> {
            &&& withdrawal is Ok <==> left is Ok
            &&& withdrawal is Ok ==> left->Ok_0.0 == withdrawal->Ok_0.1 && left->Ok_0.1
                == withdrawal->Ok_0.2 && after == withdrawal->Ok_0.0
            &&& withdrawal is Err ==> left->Err_0 == withdrawal->Err_0 && after == before
        },
{
}

/// A donation goes through if and only if the balance and the number of donations have room for it.
/// The donated amount moves from the sender to the contract, the balance of the project in that token
/// grows by it, and the donation is stored as it was given, under the next number, which comes last in
/// the list of the project. Nothing else changes.
pub proof fn law_what_a_donation_does(
    s: DonationModel,
    ctx: CallContext,
    sender: Address,
    token: Address,
    ephemeral_pubkey: [u8; 33],
    project_wallet: Address,
    amount: i128,
    msg_hash: [u8; 32],
    address: [u8; 32],
)
    ensures
        ({
            let step = transitions::donate_step(
                s,
                ctx,
                sender,
                token,
                ephemeral_pubkey,
                project_wallet,
                amount,
                msg_hash,
                address,
            );
            let balance = held(s, project_wallet, token) + amount;
            let fits = i128::MIN <= balance <= i128::MAX;
            &&& !fits ==> step is Err && step->Err_0 == DonationFailure::Trap(
                DonationTrap::StealthBalanceOverflow,
            )
            &&& fits && s.counter == u64::MAX ==> step is Err && step->Err_0
                == DonationFailure::Trap(DonationTrap::StealthCounterOverflow)
            &&& fits && s.counter < u64::MAX ==> step is Ok
            &&& step is Ok ==> {
                let (next, id, receipt) = step->Ok_0;
                &&& id == s.counter + 1
                &&& next.counter == id
                &&& next.donations == s.donations.insert(
                    id,
                    StealthDonation {
                        stealth_address: address,
                        project_wallet,
                        ephemeral_pubkey,
                        amount,
                        msg_hash,
                    },
                )
                &&& next.project_donations == s.project_donations.insert(
                    project_wallet,
                    listed(s, project_wallet).push(id),
                )
                &&& next.balances == s.balances.insert(
                    (project_wallet, token),
                    held(next, project_wallet, token),
                )
                &&& held(next, project_wallet, token) == held(s, project_wallet, token) + amount
                &&& receipt.transfer == (TokenTransfer {
                    token,
                    from: sender,
                    to: ctx.contract,
                    amount,
                })
                &&& receipt.event == (DonationEvent::Donation {
                    donation_id: id,
                    project_wallet,
                    amount,
                    ephemeral_pubkey,
                    msg_hash,
                    timestamp: ctx.timestamp,
                })
            }
        }),
{
}

/// A withdrawal goes through if and only if its amount is positive and no more than the project has in
/// that token. The requested amount moves from the contract to the project's wallet, the balance falls
/// by exactly that, and what is left is returned. Nothing else changes.
pub proof fn law_what_a_withdrawal_does(
    s: DonationModel,
    ctx: CallContext,
    project_wallet: Address,
    token: Address,
    amount: i128,
)
    ensures
        ({
            let step = transitions::withdraw_step(s, ctx, project_wallet, token, amount);
            let before = held(s, project_wallet, token);
            &&& amount <= 0 ==> step is Err && step->Err_0 == DonationFailure::Error(
                DonationError::WithdrawalAmountMustBePositive,
            )
            &&& amount > 0 && amount > before ==> step is Err && step->Err_0
                == DonationFailure::Error(DonationError::InsufficientStealthWithdrawableBalance)
            &&& 0 < amount <= before ==> step is Ok
            &&& step is Ok ==> {
                let (next, left, receipt) = step->Ok_0;
                &&& receipt.transfer == (TokenTransfer {
                    token,
                    from: ctx.contract,
                    to: project_wallet,
                    amount,
                })
                &&& before - held(next, project_wallet, token) == receipt.transfer.amount
                &&& left == held(next, project_wallet, token)
                &&& next == (DonationModel {
                    balances: s.balances.insert((project_wallet, token), left),
                    ..s
                })
                &&& receipt.event == (DonationEvent::Withdrawal {
                    project_wallet,
                    token,
                    amount,
                    remaining_balance: left,
                    timestamp: ctx.timestamp,
                })
            }
        }),
{
}

/// A scan goes through the numbers it is given in their order, shows what is stored under each, and
/// passes over those that nothing is stored under.
pub proof fn law_what_a_scan_shows(s: DonationModel, ids: Seq<u64>, id: u64)
    ensures
        transitions::stored_donations(s, Seq::empty()) == Seq::<StealthDonation>::empty(),
        s.donations.contains_key(id) ==> transitions::stored_donations(s, ids.push(id))
            == transitions::stored_donations(s, ids).push(s.donations[id]),
        !s.donations.contains_key(id) ==> transitions::stored_donations(s, ids.push(id))
            == transitions::stored_donations(s, ids),
{
    assert(ids.push(id).drop_last() =~= ids);
}

/// The one-time address is the digest of the wallet in its XDR form, followed by all bytes of the
/// ephemeral key.
pub proof fn law_what_a_one_time_address_is(wallet: Address, key: [u8; 33], i: int)
    ensures
        ({
            let xdr = crate::host::address_xdr(wallet);
            let data = transitions::stealth_preimage(wallet, key);
            &&& transitions::stealth_address(wallet, key) == crate::host::sha256_digest(data)
            &&& data.len() == xdr.len() + 33
            &&& 0 <= i < xdr.len() ==> data[i] == xdr[i]
            &&& 0 <= i < 33 ==> data[xdr.len() + i] == key@[i]
        }),
{
}

} // verus!
