//! What the host tells of a call, and the token movements that a call asks for.

use vstd::prelude::*;

use crate::address::Address;

verus! {

/// The circumstances of a call: the contract's own address, and the sequence number and the
/// timestamp of the ledger in which the call runs.
#[derive(Clone, Copy, Debug)]
pub struct CallContext {
    pub contract: Address,
    pub sequence: u32,
    pub timestamp: u64,
}

/// A token movement that has to take place for a call to stand.
#[derive(Clone, Copy, Debug, PartialEq, Eq)]
pub struct TokenTransfer {
    pub token: Address,
    pub from: Address,
    pub to: Address,
    pub amount: i128,
}

} // verus!
