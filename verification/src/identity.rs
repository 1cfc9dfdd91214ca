//! Party identities, payment hashes and the two scalar units of the ledger.
//!
//! Identities and hashes are the chain's own types. The library never looks
//! inside one: it stores them, hands them back, and asks whether two
//! identities are the same.

use vstd::prelude::*;

verus! {

/// `ink::primitives::AccountId`, the identity of a party. Opaque here.
#[verifier::external_type_specification]
#[verifier::external_body]
pub struct ExAccountId(ink::primitives::AccountId);

/// `ink::primitives::Hash`, a 32-byte digest. Opaque here.
#[verifier::external_type_specification]
#[verifier::external_body]
pub struct ExHash(ink::primitives::Hash);

/// Amount of the native value.
pub type Balance = u128;

/// Logical time, in the ledger's unit (milliseconds).
pub type Timestamp = u64;

/// Calls `==` of `ink::primitives::AccountId`, the `PartialEq` that the type
/// derives over its 32 bytes. Trusted: the answer is `true` exactly when the
/// two identities are the same value.
#[verifier::external_body]
pub(crate) fn same_account(a: &ink::primitives::AccountId, b: &ink::primitives::AccountId) -> (r: bool)
    ensures
        r == (*a == *b),
{
    a == b
}

} // verus!
