//! Addresses as plain values.

use vstd::prelude::*;

verus! {

/// A Stellar address: an account, named by its ed25519 public key, or a contract, named by its
/// contract hash.
#[derive(Clone, Copy, Debug, Eq)]
pub enum Address {
    Account([u8; 32]),
    Contract([u8; 32]),
}

impl View for Address {
    type V = Address;

    open spec fn view(&self) -> Address {
        *self
    }
}

/// Whether two 32-byte strings are the same.
pub fn same_bytes32(a: &[u8; 32], b: &[u8; 32]) -> (r: bool)
    ensures
        r == (*a == *b),
{
    let mut i: usize = 0;
    while i < 32
        invariant
            i <= 32,
            forall|j: int| 0 <= j < i ==> a[j] == b[j],
        decreases 32 - i,
    {
        if a[i] != b[i] {
            assert(a[i as int] != b[i as int]);
            return false;
        }
        i = i + 1;
    }
    assert(*a =~= *b);
    true
}

impl PartialEq for Address {
    fn eq(&self, other: &Self) -> (r: bool) {
        match (self, other) {
            (Address::Account(a), Address::Account(b)) => same_bytes32(a, b),
            (Address::Contract(a), Address::Contract(b)) => same_bytes32(a, b),
            _ => false,
        }
    }
}

impl vstd::std_specs::cmp::PartialEqSpecImpl for Address {
    open spec fn obeys_eq_spec() -> bool {
        true
    }

    open spec fn eq_spec(&self, other: &Self) -> bool {
        *self == *other
    }
}

/// Whether `list` holds `item`.
pub fn contains_address(list: &Vec<Address>, item: Address) -> (r: bool)
    ensures
        r == list@.contains(item),
{
    let mut i: usize = 0;
    while i < list.len()
        invariant
            i <= list.len(),
            forall|j: int| 0 <= j < i ==> list@[j] != item,
        decreases list.len() - i,
    {
        if list[i] == item {
            assert(list@[i as int] == item);
            return true;
        }
        i = i + 1;
    }
    false
}

/// A copy of a list of addresses.
pub fn copy_addresses(list: &Vec<Address>) -> (r: Vec<Address>)
    ensures
        r@ == list@,
{
    let mut out: Vec<Address> = Vec::new();
    let mut i: usize = 0;
    while i < list.len()
        invariant
            i <= list.len(),
            out@ =~= list@.take(i as int),
        decreases list.len() - i,
    {
        out.push(list[i]);
        i = i + 1;
    }
    out
}

} // verus!
