//! Error kinds shared by every request. All are terminal for the current
//! request: a failing request leaves the store untouched.

use vstd::prelude::*;

verus! {

/// Why a request was rejected.
#[derive(Clone, Copy, Debug, PartialEq, Eq, Structural)]
pub enum Error {
    /// A pet, quest, battle or history entry is absent for the given key.
    NotFound,
    /// The caller is not the verified owner of the referenced pet.
    Unauthorized,
    /// The ledger balance is below the required amount.
    InsufficientFunds,
    /// The action was attempted against an entity not in the required state.
    InvalidState,
    /// The external registry or ledger call failed or returned an
    /// unexpected shape. Never produced by the verified core itself; the
    /// host reports it when a collaborator misbehaves.
    UpstreamFailure,
}

} // verus!
