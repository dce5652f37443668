//! The contract-read path: bind one handle for a fixed (address, interface)
//! pair and report the address it is bound to.
//!
//! The interface is parsed from a JSON description and the address from its
//! hex spelling; both parses are local. The single read against the handle is
//! a network call, performed by the caller.

use vstd::prelude::*;
use std::str::FromStr;
use std::sync::Arc;
use ethers::abi::Abi;
use ethers::contract::{Contract, ContractInstance};
use ethers::providers::{Http, Provider};
use ethers::types::H160;

verus! {

#[verifier::external_type_specification]
#[verifier::external_body]
pub struct ExAbi(Abi);

#[verifier::external_type_specification]
#[verifier::external_body]
pub struct ExH160(H160);

#[verifier::external_type_specification]
#[verifier::external_body]
#[verifier::reject_recursive_types(B)]
#[verifier::reject_recursive_types(M)]
pub struct ExContractInstance<B, M>(ContractInstance<B, M>);

#[verifier::external_type_specification]
#[verifier::external_body]
pub struct ExJsonError(serde_json::Error);

/// The address a contract instance is bound to.
pub uninterp spec fn contract_bound_address(c: Contract<Provider<Http>>) -> H160;

/// The interface a contract instance is bound to.
pub uninterp spec fn contract_bound_interface(c: Contract<Provider<Http>>) -> Abi;

/// Whether `serde_json::from_str` accepts this text as an `Abi` description.
/// Deserialization depends on the characters alone, so acceptance is a
/// function of them.
pub uninterp spec fn abi_accepted(json: Seq<char>) -> bool;

/// Whether `H160::from_str` accepts this spelling as an address. Parsing
/// depends on the characters alone, so acceptance is a function of them.
pub uninterp spec fn hex_address_accepted(hex: Seq<char>) -> bool;

/// Relies on `serde_json::from_str` deserializing ethers' `Abi`: parses a JSON
/// interface description, succeeding exactly when the description parses. The
/// empty string is not valid JSON, so it yields `Err`.
#[verifier::external_body]
fn abi_from_json(json: &str) -> (r: Result<Abi, serde_json::Error>)
    ensures
        r is Ok <==> abi_accepted(json@),
        json@.len() == 0 ==> r is Err,
{
    serde_json::from_str(json)
}

/// Relies on `H160::from_str`: parses a 20-byte address from 40 hex digits
/// with an optional `0x` prefix, succeeding exactly when the spelling is of
/// that form; an empty string, one of another length, and one with a non-hex
/// digit all yield an error.
#[verifier::external_body]
fn address_from_hex(hex: &str) -> (r: Option<H160>)
    ensures
        r is Some <==> hex_address_accepted(hex@),
        hex@.len() == 0 ==> r is None,
{
    H160::from_str(hex).ok()
}

/// Relies on `Contract::new`: binds an (address, interface) pair to a client;
/// the instance is bound to exactly the address and the interface given. The
/// `Arc` around the client is the shared ownership ethers asks for.
#[verifier::external_body]
fn contract_new(address: H160, abi: Abi, client: Provider<Http>) -> (c: Contract<Provider<Http>>)
    ensures
        contract_bound_address(c) == address,
        contract_bound_interface(c) == abi,
{
    Contract::new(address, abi, Arc::new(client))
}

/// Relies on `ContractInstance::address`: returns the address the instance
/// was bound to.
#[verifier::external_body]
fn contract_address(c: &Contract<Provider<Http>>) -> (a: H160)
    ensures
        a == contract_bound_address(*c),
{
    c.address()
}

/// Parse the minimal contract interface from its JSON description: `Some`
/// exactly when the description parses; the empty description never does.
pub fn parse_interface(json: &str) -> (r: Option<Abi>)
    ensures
        r is Some <==> abi_accepted(json@),
        json@.len() == 0 ==> r is None,
{
    match abi_from_json(json) {
        Ok(abi) => Some(abi),
        Err(_) => None,
    }
}

/// Parse a contract address from its hex spelling: `Some` exactly when the
/// spelling is 40 hex digits, with an optional `0x` prefix; the empty spelling
/// never is.
pub fn parse_address(hex: &str) -> (r: Option<H160>)
    ensures
        r is Some <==> hex_address_accepted(hex@),
        hex@.len() == 0 ==> r is None,
{
    address_from_hex(hex)
}

/// Bind one contract handle for the (address, interface) pair and return it
/// together with the address it reports. The handle is bound to exactly the
/// address and the interface given, so the report equals that address.
pub fn bind_handle(address: H160, abi: Abi, client: Provider<Http>) -> (r: (
    Contract<Provider<Http>>,
    H160,
))
    ensures
        contract_bound_address(r.0) == address,
        contract_bound_interface(r.0) == abi,
        r.1 == address,
{
    let handle = contract_new(address, abi, client);
    let reported = contract_address(&handle);
    (handle, reported)
}

} // verus!
