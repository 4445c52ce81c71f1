//! The identity of a caller.
//!
//! Identities are `candid::Principal` values handed in by the host. The
//! library never builds or inspects one: it stores them, hands them back and
//! compares them.

use candid::Principal;
use vstd::prelude::*;

verus! {

/// `candid::Principal`, carried through as an opaque value.
#[verifier::external_type_specification]
#[verifier::external_body]
pub struct ExPrincipal(Principal);

/// Calls `Principal`'s `==` (the `PartialEq` impl that `ic_principal` derives
/// over the length and the byte buffer of a principal).
///
/// Trusted: the result is `true` exactly when both arguments are the same
/// principal.
#[verifier::external_body]
pub(crate) fn same_principal(a: &Principal, b: &Principal) -> (same: bool)
    ensures
        same == (*a == *b),
{
    a == b
}

} // verus!
