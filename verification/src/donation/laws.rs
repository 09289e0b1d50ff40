//! What holds of the donation contract whatever is called.

use vstd::prelude::*;

use crate::address::Address;
use crate::context::CallContext;
use crate::donation::error::{DonationError, DonationFailure};
use crate::donation::state;
use crate::donation::state::{DonationModel, StealthDonation};
use crate::donation::transitions;

verus! {

/// A donation or a withdrawal with its arguments.
pub enum DonationCall {
    Donate {
        ctx: CallContext,
        sender: Address,
        token: Address,
        ephemeral_pubkey: [u8; 33],
        project_wallet: Address,
        amount: i128,
        msg_hash: [u8; 32],
        address: [u8; 32],
    },
    Withdraw { ctx: CallContext, project_wallet: Address, token: Address, amount: i128 },
}

/// The state after a call, where it is not refused.
pub open spec fn next_state(s: DonationModel, call: DonationCall) -> Result<
    DonationModel,
    DonationFailure,
> {
    match call {
        DonationCall::Donate {
            ctx,
            sender,
            token,
            ephemeral_pubkey,
            project_wallet,
            amount,
            msg_hash,
            address,
        } => match transitions::donate_step(
            s,
            ctx,
            sender,
            token,
            ephemeral_pubkey,
            project_wallet,
            amount,
            msg_hash,
            address,
        ) {
            Ok((next, _, _)) => Ok(next),
            Err(f) => Err(f),
        },
        DonationCall::Withdraw { ctx, project_wallet, token, amount } =>
            match transitions::withdraw_step(s, ctx, project_wallet, token, amount) {
                Ok((next, _, _)) => Ok(next),
                Err(f) => Err(f),
            },
    }
}

/// The donations are numbered from one on, and each is listed for its project and for no other.
pub open spec fn well_formed(s: DonationModel) -> bool {
    &&& forall|id: u64| #[trigger] s.donations.contains_key(id) <==> 1 <= id <= s.counter
    &&& forall|w: Address, i: int|
        0 <= i < state::ids_of(s, w).len() ==> s.donations.contains_key(
            #[trigger] state::ids_of(s, w)[i],
        ) && s.donations[state::ids_of(s, w)[i]].project_wallet == w
    &&& forall|id: u64| #[trigger]
        s.donations.contains_key(id) ==> state::ids_of(s, s.donations[id].project_wallet).contains(
            id,
        )
}

/// The state before the first call is well-formed.
pub proof fn law_empty_state_is_well_formed()
    ensures
        well_formed(state::empty_state()),
{
}

/// Every call keeps the donations numbered and listed.
pub proof fn law_every_call_keeps_state_well_formed(s: DonationModel, call: DonationCall)
    requires
        well_formed(s),
        next_state(s, call) is Ok,
    ensures
        well_formed(next_state(s, call)->Ok_0),
{
    let next = next_state(s, call)->Ok_0;
    match call {
        DonationCall::Donate { project_wallet, .. } => {
            let new = next.counter;
            assert(!s.donations.contains_key(new));
            let before = state::ids_of(s, project_wallet);
            assert(state::ids_of(next, project_wallet) == before.push(new));
            assert forall|w: Address, i: int|
                0 <= i < state::ids_of(next, w).len() implies next.donations.contains_key(
                #[trigger] state::ids_of(next, w)[i],
            ) && next.donations[state::ids_of(next, w)[i]].project_wallet == w by {
                if w == project_wallet {
                    if i < before.len() {
                        assert(state::ids_of(next, w)[i] == state::ids_of(s, w)[i]);
                        assert(s.donations.contains_key(state::ids_of(s, w)[i]));
                    }
                } else {
                    assert(state::ids_of(next, w) == state::ids_of(s, w));
                    assert(s.donations.contains_key(state::ids_of(s, w)[i]));
                }
            }
            assert forall|id: u64| #[trigger] next.donations.contains_key(id) implies state::ids_of(
                next,
                next.donations[id].project_wallet,
            ).contains(id) by {
                let w = next.donations[id].project_wallet;
                if id == new {
                    assert(state::ids_of(next, w)[before.len() as int] == new);
                } else {
                    assert(s.donations.contains_key(id));
                    let ids = state::ids_of(s, w);
                    let i = choose|i: int| 0 <= i < ids.len() && ids[i] == id;
                    assert(state::ids_of(next, w)[i] == id);
                }
            }
        },
        DonationCall::Withdraw { .. } => {
            assert forall|w: Address| #[trigger] state::ids_of(next, w) == state::ids_of(s, w) by {}
        },
    }
}

/// A new donation gets the next number, which no donation had before, and what was donated before
/// stays as it was.
pub proof fn law_donations_are_numbered_in_order(
    s: DonationModel,
    ctx: CallContext,
    sender: Address,
    token: Address,
    ephemeral_pubkey: [u8; 33],
    project_wallet: Address,
    amount: i128,
    msg_hash: [u8; 32],
    address: [u8; 32],
)
    requires
        well_formed(s),
        transitions::donate_step(
            s,
            ctx,
            sender,
            token,
            ephemeral_pubkey,
            project_wallet,
            amount,
            msg_hash,
            address,
        ) is Ok,
    ensures
        ({
            let (next, id, _) = transitions::donate_step(
                s,
                ctx,
                sender,
                token,
                ephemeral_pubkey,
                project_wallet,
                amount,
                msg_hash,
                address,
            )->Ok_0;
            &&& id == s.counter + 1
            &&& !s.donations.contains_key(id)
            &&& next.donations[id] == (StealthDonation {
                stealth_address: address,
                project_wallet,
                ephemeral_pubkey,
                amount,
                msg_hash,
            })
            &&& forall|old_id: u64| #[trigger]
                s.donations.contains_key(old_id) ==> next.donations.contains_key(old_id)
                    && next.donations[old_id] == s.donations[old_id]
        }),
{
}

/// What a call changes a balance by.
pub open spec fn change(call: DonationCall, project_wallet: Address, token: Address) -> int {
    match call {
        DonationCall::Donate { token: t, project_wallet: w, amount, .. } => if t == token && w
            == project_wallet {
            amount as int
        } else {
            0
        },
        DonationCall::Withdraw { token: t, project_wallet: w, amount, .. } => if t == token && w
            == project_wallet {
            -amount
        } else {
            0
        },
    }
}

/// A donation adds its amount to the balance of its project in its token, a withdrawal takes its
/// amount away, and no other balance changes.
pub proof fn law_balances_match_transfers(
    s: DonationModel,
    call: DonationCall,
    project_wallet: Address,
    token: Address,
)
    requires
        next_state(s, call) is Ok,
    ensures
        state::balance_of(next_state(s, call)->Ok_0, project_wallet, token) == state::balance_of(
            s,
            project_wallet,
            token,
        ) + change(call, project_wallet, token),
{
}

/// The state after a row of calls, of which the refused ones change nothing.
pub open spec fn state_after(s: DonationModel, row: Seq<DonationCall>) -> DonationModel
    decreases row.len(),
{
    if row.len() == 0 {
        s
    } else {
        let before = state_after(s, row.drop_last());
        match next_state(before, row.last()) {
            Ok(next) => next,
            Err(_) => before,
        }
    }
}

/// What the calls of a row that go through change a balance by.
pub open spec fn total_change(
    s: DonationModel,
    row: Seq<DonationCall>,
    project_wallet: Address,
    token: Address,
) -> int
    decreases row.len(),
{
    if row.len() == 0 {
        0
    } else {
        total_change(s, row.drop_last(), project_wallet, token) + match next_state(
            state_after(s, row.drop_last()),
            row.last(),
        ) {
            Ok(_) => change(row.last(), project_wallet, token),
            Err(_) => 0,
        }
    }
}

/// Nothing is stranded and nothing is made up: over any row of calls, a balance is what was donated
/// less what was withdrawn.
pub proof fn law_balance_is_donations_less_withdrawals(
    s: DonationModel,
    row: Seq<DonationCall>,
    project_wallet: Address,
    token: Address,
)
    ensures
        state::balance_of(state_after(s, row), project_wallet, token) == state::balance_of(
            s,
            project_wallet,
            token,
        ) + total_change(s, row, project_wallet, token),
    decreases row.len(),
{
    if row.len() > 0 {
        let rest = row.drop_last();
        law_balance_is_donations_less_withdrawals(s, rest, project_wallet, token);
        let before = state_after(s, rest);
        if next_state(before, row.last()) is Ok {
            law_balances_match_transfers(before, row.last(), project_wallet, token);
        }
    }
}

/// A withdrawal pays the project's own wallet, no more than its balance, and leaves a balance that is
/// not negative.
pub proof fn law_withdrawal_pays_only_the_project(
    s: DonationModel,
    ctx: CallContext,
    project_wallet: Address,
    token: Address,
    amount: i128,
)
    requires
        transitions::withdraw_step(s, ctx, project_wallet, token, amount) is Ok,
    ensures
        ({
            let (next, remaining, receipt) = transitions::withdraw_step(
                s,
                ctx,
                project_wallet,
                token,
                amount,
            )->Ok_0;
            &&& receipt.transfer.to == project_wallet
            &&& receipt.transfer.token == token
            &&& 0 < receipt.transfer.amount <= state::balance_of(s, project_wallet, token)
            &&& remaining == state::balance_of(next, project_wallet, token)
            &&& remaining >= 0
        }),
{
}

/// A donation of a positive amount can be withdrawn at once and leaves the balance as it was before.
pub proof fn law_donation_can_be_withdrawn(
    s: DonationModel,
    ctx: CallContext,
    sender: Address,
    token: Address,
    ephemeral_pubkey: [u8; 33],
    project_wallet: Address,
    amount: i128,
    msg_hash: [u8; 32],
    address: [u8; 32],
    later: CallContext,
)
    requires
        amount > 0,
        state::balance_of(s, project_wallet, token) >= 0,
        transitions::donate_step(
            s,
            ctx,
            sender,
            token,
            ephemeral_pubkey,
            project_wallet,
            amount,
            msg_hash,
            address,
        ) is Ok,
    ensures
        ({
            let next = transitions::donate_step(
                s,
                ctx,
                sender,
                token,
                ephemeral_pubkey,
                project_wallet,
                amount,
                msg_hash,
                address,
            )->Ok_0.0;
            transitions::withdraw_step(next, later, project_wallet, token, amount) matches Ok(
                (_, remaining, _),
            ) && remaining == state::balance_of(s, project_wallet, token)
        }),
{
}

/// What is not there cannot be withdrawn.
pub proof fn law_overdraft_is_refused(
    s: DonationModel,
    ctx: CallContext,
    project_wallet: Address,
    token: Address,
    amount: i128,
)
    requires
        amount > 0,
        amount > state::balance_of(s, project_wallet, token),
    ensures
        transitions::withdraw_step(s, ctx, project_wallet, token, amount) == Err::<
            (DonationModel, i128, crate::donation::events::DonationReceipt),
            DonationFailure,
        >(DonationFailure::Error(DonationError::InsufficientStealthWithdrawableBalance)),
{
}

/// A scan shows a new donation to its project, after those it showed before, and to no other project.
pub proof fn law_scan_shows_every_donation(
    s: DonationModel,
    ctx: CallContext,
    sender: Address,
    token: Address,
    ephemeral_pubkey: [u8; 33],
    project_wallet: Address,
    amount: i128,
    msg_hash: [u8; 32],
    address: [u8; 32],
    other: Address,
)
    requires
        well_formed(s),
        other != project_wallet,
        transitions::donate_step(
            s,
            ctx,
            sender,
            token,
            ephemeral_pubkey,
            project_wallet,
            amount,
            msg_hash,
            address,
        ) is Ok,
    ensures
        ({
            let (next, id, _) = transitions::donate_step(
                s,
                ctx,
                sender,
                token,
                ephemeral_pubkey,
                project_wallet,
                amount,
                msg_hash,
                address,
            )->Ok_0;
            &&& transitions::stored_donations(next, state::ids_of(next, project_wallet))
                == transitions::stored_donations(s, state::ids_of(s, project_wallet)).push(
                next.donations[id],
            )
            &&& transitions::stored_donations(next, state::ids_of(next, other))
                == transitions::stored_donations(s, state::ids_of(s, other))
        }),
{
    let (next, id, _) = transitions::donate_step(
        s,
        ctx,
        sender,
        token,
        ephemeral_pubkey,
        project_wallet,
        amount,
        msg_hash,
        address,
    )->Ok_0;
    let ids = state::ids_of(s, project_wallet);
    assert(state::ids_of(next, project_wallet).drop_last() =~= ids);
    assert forall|i: int| 0 <= i < ids.len() implies #[trigger] ids[i] != id by {
        assert(s.donations.contains_key(state::ids_of(s, project_wallet)[i]));
    }
    lemma_stored_donations_same(s, next, ids, id);
    let others = state::ids_of(s, other);
    assert(state::ids_of(next, other) == others);
    assert forall|i: int| 0 <= i < others.len() implies #[trigger] others[i] != id by {
        assert(s.donations.contains_key(state::ids_of(s, other)[i]));
    }
    lemma_stored_donations_same(s, next, others, id);
}

proof fn lemma_stored_donations_same(s: DonationModel, next: DonationModel, ids: Seq<u64>, id: u64)
    requires
        next.donations == s.donations.insert(id, next.donations[id]),
        forall|i: int| 0 <= i < ids.len() ==> #[trigger] ids[i] != id,
    ensures
        transitions::stored_donations(next, ids) == transitions::stored_donations(s, ids),
    decreases ids.len(),
{
    if ids.len() > 0 {
        let rest = ids.drop_last();
        assert forall|i: int| 0 <= i < rest.len() implies #[trigger] rest[i] != id by {
            assert(rest[i] == ids[i]);
        }
        lemma_stored_donations_same(s, next, rest, id);
        assert(ids.last() == ids[ids.len() - 1]);
    }
}

/// A scan shows only what was given to the project.
pub proof fn law_scan_shows_only_own_donations(s: DonationModel, project_wallet: Address, i: int)
    requires
        well_formed(s),
        0 <= i < transitions::stored_donations(s, state::ids_of(s, project_wallet)).len(),
    ensures
        transitions::stored_donations(
            s,
            state::ids_of(s, project_wallet),
        )[i].project_wallet == project_wallet,
{
    lemma_stored_donations_own(s, project_wallet, state::ids_of(s, project_wallet).len() as int);
    let ids = state::ids_of(s, project_wallet);
    assert(ids.take(ids.len() as int) =~= ids);
}

proof fn lemma_stored_donations_own(s: DonationModel, w: Address, n: int)
    requires
        well_formed(s),
        0 <= n <= state::ids_of(s, w).len(),
    ensures
        forall|i: int|
            0 <= i < transitions::stored_donations(s, state::ids_of(s, w).take(n)).len() ==> (
            #[trigger] transitions::stored_donations(
                s,
                state::ids_of(s, w).take(n),
            )[i]).project_wallet == w,
    decreases n,
{
    let ids = state::ids_of(s, w);
    if n > 0 {
        lemma_stored_donations_own(s, w, n - 1);
        assert(ids.take(n).drop_last() =~= ids.take(n - 1));
        assert(ids.take(n).last() == ids[n - 1]);
        assert(s.donations.contains_key(state::ids_of(s, w)[n - 1]));
    }
}

/// What a one-time address is the digest of tells the wallet and the key: no two pairs share it.
pub proof fn law_preimage_tells_wallet_and_key(
    wallet_a: Address,
    key_a: [u8; 33],
    wallet_b: Address,
    key_b: [u8; 33],
)
    requires
        transitions::stealth_preimage(wallet_a, key_a) == transitions::stealth_preimage(
            wallet_b,
            key_b,
        ),
    ensures
        wallet_a == wallet_b,
        key_a@ == key_b@,
{
    let a = transitions::stealth_preimage(wallet_a, key_a);
    let b = transitions::stealth_preimage(wallet_b, key_b);
    match (wallet_a, wallet_b) {
        (Address::Account(x), Address::Account(y)) => {
            assert(x@ =~= a.subrange(12, 44));
            assert(y@ =~= b.subrange(12, 44));
            assert(x =~= y);
            assert(key_a@ =~= a.subrange(44, 77));
            assert(key_b@ =~= b.subrange(44, 77));
        },
        (Address::Contract(x), Address::Contract(y)) => {
            assert(x@ =~= a.subrange(8, 40));
            assert(y@ =~= b.subrange(8, 40));
            assert(x =~= y);
            assert(key_a@ =~= a.subrange(40, 73));
            assert(key_b@ =~= b.subrange(40, 73));
        },
        (Address::Account(_), Address::Contract(_)) => {
            assert(a.len() == 77 && b.len() == 73);
        },
        (Address::Contract(_), Address::Account(_)) => {
            assert(a.len() == 73 && b.len() == 77);
        },
    }
}

} // verus!
