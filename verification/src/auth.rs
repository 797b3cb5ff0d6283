//! Who may initiate an operation.

use crate::address::Address;
use vstd::prelude::*;

verus! {

/// The identity that asks for an operation, as the hosting environment
/// presents it.
#[derive(Clone, Copy, Debug, PartialEq, Eq)]
pub struct Caller {
    /// The caller's own address.
    pub key: Address,
    /// Whether the caller's signature on the request was verified.
    pub is_signer: bool,
    /// Whether the caller's account may be debited to fund the operation.
    pub is_writable: bool,
}

/// Decides whether a caller may fund and initiate an operation.
pub struct AuthorizationGate;

impl AuthorizationGate {
    /// True of a caller that signed the request and can fund it.
    pub open spec fn permits(caller: Caller) -> bool {
        caller.is_signer && caller.is_writable
    }

    /// Tells whether `caller` is permitted.
    pub fn check(caller: &Caller) -> (permitted: bool)
        ensures
            permitted == Self::permits(*caller),
    {
        caller.is_signer && caller.is_writable
    }
}

} // verus!
