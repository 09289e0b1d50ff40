//! A probe that asks another contract for its price.

use soroban_sdk::Env;
use vstd::prelude::*;

use crate::address::Address;
use crate::oracle::aggregate::ask_for_price;

verus! {

/// The probe.
pub struct Dummy;

impl Dummy {
    /// Asks `target` for its price and takes any reply for an answer. Only a contract can be asked.
    pub fn test(env: &Env, target: &Address)
        requires
            target is Contract,
    {
        let _reply = ask_for_price(env, target);
    }
}

} // verus!
