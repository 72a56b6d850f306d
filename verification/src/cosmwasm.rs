//! The value types of `cosmwasm_std` that run through the bindings, and the
//! calls that the bindings make on them.
//!
//! The types are opaque here: the bindings carry addresses, 64-bit numbers
//! and binary keys from one record to another and never look inside.

use cosmwasm_std::{Addr, Binary, Uint64};
use vstd::prelude::*;

verus! {

/// `cosmwasm_std::Addr`, a chain address.
#[verifier::external_type_specification]
#[verifier::external_body]
pub struct ExAddr(cosmwasm_std::Addr);

/// `cosmwasm_std::Uint64`, a 64-bit unsigned number that travels as a string.
#[verifier::external_type_specification]
#[verifier::external_body]
pub struct ExUint64(cosmwasm_std::Uint64);

/// `cosmwasm_std::Binary`, a byte string that travels as base64.
#[verifier::external_type_specification]
#[verifier::external_body]
pub struct ExBinary(cosmwasm_std::Binary);

/// `Addr::clone`, which `derive` wrote.
///
/// Trusted: the copy wraps a copy of the same string, so it is the address
/// that was cloned.
pub assume_specification[ <Addr as Clone>::clone ](address: &Addr) -> (copy: Addr)
    ensures
        copy == *address,
;

/// `Uint64::clone`, which `derive` wrote for a `Copy` type.
///
/// Trusted: the copy is the number that was cloned.
pub assume_specification[ <Uint64 as Clone>::clone ](number: &Uint64) -> (copy: Uint64)
    ensures
        copy == *number,
;

/// The `Uint64` that `Uint64::from` makes of a number.
pub uninterp spec fn uint64_of(value: u64) -> Uint64;

/// Makes a `Uint64` of a number, by `Uint64::from`.
///
/// Trusted: the result is a function of the number alone, named
/// [`uint64_of`].
#[verifier::external_body]
pub(crate) fn uint64_from(value: u64) -> (number: Uint64)
    ensures
        number == uint64_of(value),
{
    Uint64::from(value)
}

/// Rebuilds an address from itself, by `Addr::unchecked`.
///
/// Trusted: `Addr::unchecked` wraps the string that its argument converts
/// into, and an address converts into the string that it wraps, so the
/// result is the argument.
#[verifier::external_body]
pub(crate) fn addr_unchecked(address: Addr) -> (same: Addr)
    ensures
        same == address,
{
    Addr::unchecked(address)
}

} // verus!
