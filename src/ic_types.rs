//! Types of the Internet Computer libraries that the ledger configuration
//! carries: principals, arbitrary-precision naturals and ICRC-1 accounts.
use vstd::prelude::*;

verus! {

/// A principal (canister or user identity). Its bytes are private to the
/// candid crate, so it is carried through as an opaque value.
#[verifier::external_type_specification]
#[verifier::external_body]
pub struct ExPrincipal(candid::Principal);

/// An arbitrary-precision natural number, carried through unchanged.
#[verifier::external_type_specification]
#[verifier::external_body]
pub struct ExNat(candid::Nat);

/// An ICRC-1 account: an owner and an optional 32-byte subaccount. Both
/// fields are public, so their values are visible to specifications.
#[verifier::external_type_specification]
pub struct ExAccount(icrc_ledger_types::icrc1::account::Account);

} // verus!
