//! The calls into the Soroban host, and what is relied on of each of them.

use soroban_sdk::address_payload::AddressPayload;
use soroban_sdk::xdr::ToXdr;
use soroban_sdk::{Bytes, BytesN, Env, InvokeError, Symbol};
use vstd::prelude::*;

use crate::address::Address;
use crate::oracle::aggregate::SourceReply;

verus! {

/// The handle of the Soroban host, `soroban_sdk::Env`.
#[verifier::external_type_specification]
#[verifier::external_body]
pub struct ExEnv(soroban_sdk::Env);

/// A character that a symbol may hold.
pub open spec fn is_symbol_char(c: char) -> bool {
    ('a' <= c && c <= 'z') || ('A' <= c && c <= 'Z') || ('0' <= c && c <= '9') || c == '_'
}

/// Text that the host takes for the name of a function: at most 32 letters, digits and underscores.
pub open spec fn is_symbol(name: Seq<char>) -> bool {
    &&& name.len() <= 32
    &&& forall|i: int| 0 <= i < name.len() ==> is_symbol_char(#[trigger] name[i])
}

/// Whether an invocation of `function`, without arguments, on the contract with the hash `contract`
/// has come back with `reply`. Two invocations may come back with different replies.
pub uninterp spec fn has_replied(contract: Seq<u8>, function: Seq<char>, reply: SourceReply) -> bool;

/// Calls `Env::try_invoke_contract`: invokes `function`, without arguments, on the contract with
/// the hash `contract`, and asks for an `i128`. Which reply comes back is up to that contract; all
/// that is claimed of it is that it is a reply to this question. The contract has to be named by
/// its hash and the function by a symbol, since the host aborts on an account and on other text; it
/// also aborts, for whatever arguments, when the budget of the invocation is used up and when the
/// other contract touches what is outside the footprint of the invocation.
#[verifier::external_body]
pub(crate) fn invoke_for_price(env: &Env, contract: &[u8; 32], function: &str) -> (r: SourceReply)
    requires
        is_symbol(function@),
    ensures
        has_replied(contract@, function@, r),
{
    let payload = AddressPayload::ContractIdHash(BytesN::from_array(env, contract));
    let target = soroban_sdk::Address::from_payload(env, payload);
    let name = Symbol::new(env, function);
    match env.try_invoke_contract::<i128, InvokeError>(&target, &name, soroban_sdk::Vec::new(env)) {
        Ok(Ok(price)) => SourceReply::Price(price),
        Ok(Err(_)) => SourceReply::Unconvertible,
        Err(_) => SourceReply::Failed,
    }
}

/// The XDR form of an address as a host value: the number 18 for an address value, then 0 and the key
/// type 0 for an account, or 1 for a contract, each in four bytes, and last the 32 bytes of the key
/// or the hash.
pub open spec fn address_xdr(address: Address) -> Seq<u8> {
    match address {
        Address::Account(key) => seq![0u8, 0, 0, 18, 0, 0, 0, 0, 0, 0, 0, 0] + key@,
        Address::Contract(hash) => seq![0u8, 0, 0, 18, 0, 0, 0, 1] + hash@,
    }
}

/// Calls `ToXdr::to_xdr` on an address: the bytes are those of `address_xdr`. The host aborts when the
/// budget of the invocation is used up.
#[verifier::external_body]
pub(crate) fn address_to_xdr(env: &Env, address: &Address) -> (r: Vec<u8>)
    ensures
        r@ == address_xdr(*address),
{
    let payload = match address {
        Address::Account(key) => AddressPayload::AccountIdPublicKeyEd25519(
            BytesN::from_array(env, key),
        ),
        Address::Contract(hash) => AddressPayload::ContractIdHash(BytesN::from_array(env, hash)),
    };
    soroban_sdk::Address::from_payload(env, payload).to_xdr(env).iter().collect()
}

/// The SHA-256 digest of a byte string.
pub uninterp spec fn sha256_digest(data: Seq<u8>) -> Seq<u8>;

/// Calls `Crypto::sha256`: the digest of the bytes. The host counts bytes in 32 bits. Which digest
/// belongs to which bytes is left to its name, `sha256_digest`. The host aborts when the budget of the
/// invocation is used up.
#[verifier::external_body]
pub(crate) fn sha256(env: &Env, data: &Vec<u8>) -> (r: [u8; 32])
    requires
        data@.len() <= u32::MAX,
    ensures
        r@ == sha256_digest(data@),
{
    env.crypto().sha256(&Bytes::from_slice(env, data)).to_array()
}

} // verus!
