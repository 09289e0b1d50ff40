//! Why the donation contract refuses a call.

use vstd::prelude::*;

verus! {

/// The errors that the donation contract reports by number.
#[derive(Clone, Copy, Debug, PartialEq, Eq, Structural)]
pub enum DonationError {
    /// A withdrawal has to be of a positive amount.
    WithdrawalAmountMustBePositive,
    /// A withdrawal exceeds the balance of the project in the token.
    InsufficientStealthWithdrawableBalance,
}

impl DonationError {
    /// The numeric code of an error.
    pub open spec fn spec_code(self) -> u32 {
        match self {
            DonationError::WithdrawalAmountMustBePositive => 1,
            DonationError::InsufficientStealthWithdrawableBalance => 2,
        }
    }

    /// The error that a numeric code stands for.
    pub open spec fn spec_from_code(code: u32) -> Option<DonationError> {
        if code == 1 {
            Some(DonationError::WithdrawalAmountMustBePositive)
        } else if code == 2 {
            Some(DonationError::InsufficientStealthWithdrawableBalance)
        } else {
            None
        }
    }

    /// The numeric code of this error.
    pub fn code(self) -> (r: u32)
        ensures
            r == self.spec_code(),
    {
        match self {
            DonationError::WithdrawalAmountMustBePositive => 1,
            DonationError::InsufficientStealthWithdrawableBalance => 2,
        }
    }

    /// The error with the given numeric code.
    pub fn from_code(code: u32) -> (r: Option<DonationError>)
        ensures
            r == Self::spec_from_code(code),
    {
        match code {
            1 => Some(DonationError::WithdrawalAmountMustBePositive),
            2 => Some(DonationError::InsufficientStealthWithdrawableBalance),
            _ => None,
        }
    }
}

/// Every error has its own code, from which it can be told.
pub proof fn law_donation_codes_identify_errors(e: DonationError)
    ensures
        DonationError::spec_from_code(e.spec_code()) == Some(e),
{
}

/// Conditions on which the donation contract aborts with a message and without an error number.
#[derive(Clone, Copy, Debug, PartialEq, Eq, Structural)]
pub enum DonationTrap {
    StealthBalanceOverflow,
    StealthCounterOverflow,
}

impl DonationTrap {
    /// The message of an abort.
    pub open spec fn spec_message(self) -> Seq<char> {
        match self {
            DonationTrap::StealthBalanceOverflow => "Stealth withdrawable balance overflow"@,
            DonationTrap::StealthCounterOverflow => "attempt to add with overflow"@,
        }
    }

    /// The message that goes with this abort.
    pub fn message(self) -> (r: &'static str)
        ensures
            r@ == self.spec_message(),
    {
        match self {
            DonationTrap::StealthBalanceOverflow => "Stealth withdrawable balance overflow",
            DonationTrap::StealthCounterOverflow => "attempt to add with overflow",
        }
    }
}

/// Why a call is refused. A refused call changes nothing.
#[derive(Clone, Copy, Debug, PartialEq, Eq, Structural)]
pub enum DonationFailure {
    Error(DonationError),
    Trap(DonationTrap),
}

/// The number of each error, by which callers and indexers tell them apart.
pub proof fn law_donation_numbers()
    ensures
        DonationError::WithdrawalAmountMustBePositive.spec_code() == 1,
        DonationError::InsufficientStealthWithdrawableBalance.spec_code() == 2,
{
}

/// The message of each abort.
pub proof fn law_donation_messages()
    ensures
        DonationTrap::StealthBalanceOverflow.spec_message() == "Stealth withdrawable balance overflow"@,
        DonationTrap::StealthCounterOverflow.spec_message() == "attempt to add with overflow"@,
{
}

} // verus!
