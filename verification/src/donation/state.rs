//! The state of the donation contract, and what reads and writes its parts.

use vstd::prelude::*;

use crate::address::Address;
use crate::table::Table;

verus! {

/// A donation to a project under a one-time address.
#[derive(Clone, Copy, Debug, PartialEq, Eq)]
pub struct StealthDonation {
    pub stealth_address: [u8; 32],
    pub project_wallet: Address,
    pub ephemeral_pubkey: [u8; 33],
    pub amount: i128,
    pub msg_hash: [u8; 32],
}

impl View for StealthDonation {
    type V = StealthDonation;

    open spec fn view(&self) -> StealthDonation {
        *self
    }
}

/// The donation contract.
pub struct DonationContract {
    /// The id of the newest donation.
    pub counter: u64,
    pub donations: Table<u64, StealthDonation>,
    /// The ids of the donations to each project, in their order.
    pub project_donations: Table<Address, Vec<u64>>,
    /// What each project has to withdraw, in each token.
    pub balances: Table<(Address, Address), i128>,
}

/// What the state of the donation contract is.
#[verifier::ext_equal]
pub struct DonationModel {
    pub counter: u64,
    pub donations: Map<u64, StealthDonation>,
    pub project_donations: Map<Address, Seq<u64>>,
    pub balances: Map<(Address, Address), i128>,
}

impl View for DonationContract {
    type V = DonationModel;

    open spec fn view(&self) -> DonationModel {
        DonationModel {
            counter: self.counter,
            donations: self.donations@,
            project_donations: self.project_donations@,
            balances: self.balances@,
        }
    }
}

/// The state before the first call.
pub open spec fn empty_state() -> DonationModel {
    DonationModel {
        counter: 0,
        donations: Map::empty(),
        project_donations: Map::empty(),
        balances: Map::empty(),
    }
}

/// The ids of the donations to a project.
pub open spec fn ids_of(s: DonationModel, project_wallet: Address) -> Seq<u64> {
    if s.project_donations.contains_key(project_wallet) {
        s.project_donations[project_wallet]
    } else {
        Seq::empty()
    }
}

/// What a project has to withdraw in a token.
pub open spec fn balance_of(s: DonationModel, project_wallet: Address, token: Address) -> i128 {
    if s.balances.contains_key((project_wallet, token)) {
        s.balances[(project_wallet, token)]
    } else {
        0
    }
}

/// The state with a balance set.
pub open spec fn with_balance(
    s: DonationModel,
    project_wallet: Address,
    token: Address,
    balance: i128,
) -> DonationModel {
    DonationModel { balances: s.balances.insert((project_wallet, token), balance), ..s }
}

/// The state with another donation listed for a project.
pub open spec fn with_project_donation(
    s: DonationModel,
    project_wallet: Address,
    donation_id: u64,
) -> DonationModel {
    DonationModel {
        project_donations: s.project_donations.insert(
            project_wallet,
            ids_of(s, project_wallet).push(donation_id),
        ),
        ..s
    }
}

impl DonationContract {
    /// The contract before the first call.
    pub fn new() -> (r: Self)
        ensures
            r@ == empty_state(),
    {
        DonationContract {
            counter: 0,
            donations: Table::new(),
            project_donations: Table::new(),
            balances: Table::new(),
        }
    }

    /// The id of the newest donation.
    pub fn get_stealth_counter(&self) -> (r: u64)
        ensures
            r == self@.counter,
    {
        self.counter
    }

    /// Sets the id of the newest donation.
    pub fn set_stealth_counter(&mut self, counter: u64)
        ensures
            final(self)@ == (DonationModel { counter, ..old(self)@ }),
    {
        self.counter = counter;
    }

    /// The donation with the given id.
    pub fn get_stealth_donation(&self, donation_id: u64) -> (r: Option<StealthDonation>)
        ensures
            r == (if self@.donations.contains_key(donation_id) {
                Some(self@.donations[donation_id])
            } else {
                None
            }),
    {
        match self.donations.get(&donation_id) {
            Some(donation) => Some(*donation),
            None => None,
        }
    }

    /// Stores a donation.
    pub fn set_stealth_donation(&mut self, donation_id: u64, donation: StealthDonation)
        ensures
            final(self)@ == (DonationModel {
                donations: old(self)@.donations.insert(donation_id, donation),
                ..old(self)@
            }),
    {
        self.donations.set(donation_id, donation);
    }

    /// The ids of the donations to a project.
    pub fn get_project_donations(&self, project_wallet: &Address) -> (r: Vec<u64>)
        ensures
            r@ == ids_of(self@, *project_wallet),
    {
        match self.project_donations.get(project_wallet) {
            Some(ids) => {
                let copy = ids.clone();
                assert(copy@ =~= ids@);
                copy
            },
            None => Vec::new(),
        }
    }

    /// Lists another donation for a project.
    pub fn add_project_donation(&mut self, project_wallet: &Address, donation_id: u64)
        ensures
            final(self)@ == with_project_donation(old(self)@, *project_wallet, donation_id),
    {
        let mut ids = self.get_project_donations(project_wallet);
        ids.push(donation_id);
        self.project_donations.set(*project_wallet, ids);
    }

    /// What a project has to withdraw in a token.
    pub fn get_stealth_withdrawable_balance(
        &self,
        project_wallet: &Address,
        token: &Address,
    ) -> (r: i128)
        ensures
            r == balance_of(self@, *project_wallet, *token),
    {
        match self.balances.get(&(*project_wallet, *token)) {
            Some(balance) => *balance,
            None => 0,
        }
    }

    /// Sets what a project has to withdraw in a token.
    pub fn set_stealth_withdrawable_balance(
        &mut self,
        project_wallet: &Address,
        token: &Address,
        balance: i128,
    )
        ensures
            final(self)@ == with_balance(old(self)@, *project_wallet, *token, balance),
    {
        self.balances.set((*project_wallet, *token), balance);
    }
}

/// What the state is told by its fields, and a donation is what it is.
pub proof fn law_what_the_state_is(c: DonationContract, donation: StealthDonation)
    ensures
        c@.counter == c.counter,
        c@.donations == c.donations@,
        c@.project_donations == c.project_donations@,
        c@.balances == c.balances@,
        donation@ == donation,
{
}

} // verus!
