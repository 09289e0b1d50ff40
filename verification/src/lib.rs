//! Verified rules of the IndigoPay contracts: milestone escrow, price oracle and stealth donations.

pub mod address;
pub mod arithmetic;
pub mod bytes;
pub mod context;
pub mod donation;
pub mod dummy;
pub mod escrow;
pub mod host;
pub mod oracle;
pub mod table;
