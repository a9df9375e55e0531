//! The kinds of refusal.

use vstd::prelude::*;

verus! {

/// Why a transition or a ledger operation was refused. A refused call changes nothing.
#[derive(Clone, Copy, Debug, PartialEq, Eq, Structural)]
pub enum EscrowError {
    /// The party required to sign did not, or may not act in that role.
    AuthenticationFailure,
    /// An account, asset or party presented does not match what is stored.
    AuthorizationMismatch,
    /// An asset move cannot be carried out with the balances as they are.
    InsufficientBalance,
    /// The address to allocate is already occupied.
    AlreadyExists,
    /// Nothing is stored at the address that the call targets.
    NotFound,
    /// An address presented is not the one derived from its seed material.
    DerivationMismatch,
}

/// What a call that returned `r` and left `after` behind amounts to: the new state, or the
/// error.
pub open spec fn outcome<S>(r: Result<(), EscrowError>, after: S) -> Result<S, EscrowError> {
    match r {
        Ok(_) => Ok(after),
        Err(e) => Err(e),
    }
}

} // verus!
