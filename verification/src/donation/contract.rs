//! The calls on the donation contract.
//!
//! Each call takes the state from one model to the next as `transitions` says. Who makes a call
//! has to be authenticated before: a call takes the addresses in its arguments for granted.

use soroban_sdk::Env;
use vstd::prelude::*;

use crate::address::Address;
use crate::context::{CallContext, TokenTransfer};
use crate::donation::error::{DonationError, DonationFailure, DonationTrap};
use crate::donation::events::{
    emit_stealth_donation, emit_stealth_scan, emit_stealth_withdrawal, DonationEvent,
    DonationReceipt,
};
use crate::donation::state;
use crate::donation::state::{DonationContract, StealthDonation};
use crate::donation::transitions;
use crate::host::{address_to_xdr, sha256};

verus! {

impl DonationContract {
    /// The one-time address of a donation: the digest of the project's wallet and the ephemeral key.
    pub fn generate_stealth_address(
        env: &Env,
        project_wallet: &Address,
        ephemeral_pubkey: &[u8; 33],
    ) -> (r: [u8; 32])
        ensures
            r@ == transitions::stealth_address(*project_wallet, *ephemeral_pubkey),
    {
        let mut data = address_to_xdr(env, project_wallet);
        let mut i: usize = 0;
        while i < 33
            invariant
                i <= 33,
                data@ =~= crate::host::address_xdr(*project_wallet) + ephemeral_pubkey@.take(
                    i as int,
                ),
            decreases 33 - i,
        {
            data.push(ephemeral_pubkey[i]);
            i = i + 1;
        }
        assert(data@ =~= transitions::stealth_preimage(*project_wallet, *ephemeral_pubkey));
        sha256(env, &data)
    }

    /// Records a donation under a one-time address that is already known.
    pub fn record_donation(
        &mut self,
        ctx: &CallContext,
        sender: Address,
        token: Address,
        ephemeral_pubkey: [u8; 33],
        project_wallet: Address,
        amount: i128,
        msg_hash: [u8; 32],
        stealth_address: [u8; 32],
    ) -> (r: Result<(u64, DonationReceipt), DonationFailure>)
        ensures
            transitions::donated(
                transitions::donate_step(
                    old(self)@,
                    *ctx,
                    sender,
                    token,
                    ephemeral_pubkey,
                    project_wallet,
                    amount,
                    msg_hash,
                    stealth_address,
                ),
                old(self)@,
                final(self)@,
                r,
            ),
    {
        let balance: i128 = match self.get_stealth_withdrawable_balance(
            &project_wallet,
            &token,
        ).checked_add(amount) {
            Some(sum) => sum,
            None => {
                return Err(DonationFailure::Trap(DonationTrap::StealthBalanceOverflow));
            },
        };
        let donation_id: u64 = match self.get_stealth_counter().checked_add(1) {
            Some(id) => id,
            None => {
                return Err(DonationFailure::Trap(DonationTrap::StealthCounterOverflow));
            },
        };
        self.set_stealth_withdrawable_balance(&project_wallet, &token, balance);
        self.set_stealth_counter(donation_id);
        let donation = StealthDonation {
            stealth_address,
            project_wallet,
            ephemeral_pubkey,
            amount,
            msg_hash,
        };
        self.set_stealth_donation(donation_id, donation);
        self.add_project_donation(&project_wallet, donation_id);
        let event = emit_stealth_donation(
            ctx,
            donation_id,
            &project_wallet,
            amount,
            &ephemeral_pubkey,
            &msg_hash,
        );
        let transfer = TokenTransfer { token, from: sender, to: ctx.contract, amount };
        Ok((donation_id, DonationReceipt { transfer, event }))
    }

    /// The sender gives `amount` of `token` to a project.
    pub fn donate_stealth(
        &mut self,
        env: &Env,
        ctx: &CallContext,
        sender: Address,
        token: Address,
        ephemeral_pubkey: [u8; 33],
        project_wallet: Address,
        amount: i128,
        msg_hash: [u8; 32],
    ) -> (r: Result<(u64, DonationReceipt), DonationFailure>)
        ensures
            exists|address: [u8; 32]|
                address@ == transitions::stealth_address(project_wallet, ephemeral_pubkey)
                    && transitions::donated(
                    #[trigger] transitions::donate_step(
                        old(self)@,
                        *ctx,
                        sender,
                        token,
                        ephemeral_pubkey,
                        project_wallet,
                        amount,
                        msg_hash,
                        address,
                    ),
                    old(self)@,
                    final(self)@,
                    r,
                ),
    {
        let stealth_address = Self::generate_stealth_address(
            env,
            &project_wallet,
            &ephemeral_pubkey,
        );
        self.record_donation(
            ctx,
            sender,
            token,
            ephemeral_pubkey,
            project_wallet,
            amount,
            msg_hash,
            stealth_address,
        )
    }

    /// The donations to a project, in their order. The viewing key has no bearing on them.
    pub fn scan_stealth_donations(
        &self,
        ctx: &CallContext,
        project_wallet: &Address,
        _viewing_key: &[u8; 32],
    ) -> (r: (Vec<StealthDonation>, DonationEvent))
        ensures
            r.0@ == transitions::stored_donations(self@, state::ids_of(self@, *project_wallet)),
            r.1 == (DonationEvent::Scan {
                project_wallet: *project_wallet,
                donation_count: r.0@.len() as usize,
                timestamp: ctx.timestamp,
            }),
    {
        let ids = self.get_project_donations(project_wallet);
        let mut donations: Vec<StealthDonation> = Vec::new();
        let mut i: usize = 0;
        assert(ids@.take(0) =~= Seq::empty());
        while i < ids.len()
            invariant
                i <= ids.len(),
                donations@ == transitions::stored_donations(self@, ids@.take(i as int)),
            decreases ids.len() - i,
        {
            assert(ids@.take(i + 1).drop_last() =~= ids@.take(i as int));
            if let Some(donation) = self.get_stealth_donation(ids[i]) {
                donations.push(donation);
            }
            i = i + 1;
        }
        assert(ids@.take(i as int) =~= ids@);
        let event = emit_stealth_scan(ctx, project_wallet, donations.len());
        (donations, event)
    }

    /// A project withdraws `amount` of `token` to its own wallet. What remains is returned.
    pub fn withdraw_stealth_donations(
        &mut self,
        ctx: &CallContext,
        project_wallet: Address,
        token: Address,
        amount: i128,
    ) -> (r: Result<(i128, DonationReceipt), DonationFailure>)
        ensures
            transitions::withdrawn(
                transitions::withdraw_step(old(self)@, *ctx, project_wallet, token, amount),
                old(self)@,
                final(self)@,
                r,
            ),
    {
        if amount <= 0 {
            return Err(DonationFailure::Error(DonationError::WithdrawalAmountMustBePositive));
        }
        let balance: i128 = self.get_stealth_withdrawable_balance(&project_wallet, &token);
        if amount > balance {
            return Err(
                DonationFailure::Error(DonationError::InsufficientStealthWithdrawableBalance),
            );
        }
        let remaining: i128 = balance - amount;
        self.set_stealth_withdrawable_balance(&project_wallet, &token, remaining);
        let event = emit_stealth_withdrawal(ctx, &project_wallet, &token, amount, remaining);
        let transfer = TokenTransfer { token, from: ctx.contract, to: project_wallet, amount };
        Ok((remaining, DonationReceipt { transfer, event }))
    }
}

} // verus!
