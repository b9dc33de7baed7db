//! The ways in which a call to the wrapper fails.

use vstd::prelude::*;

verus! {

/// Why a call was refused. A refused call leaves the wrapper as it was.
#[derive(Clone, Copy, Debug, PartialEq, Eq, Hash)]
pub enum Error {
    /// The wrapper holds no metadata yet.
    NotInitialized,
    /// The wrapper already holds metadata.
    AlreadyInitialized,
    /// The principal that the call requires did not sign it.
    Unauthorized,
    /// The wrapper does not hold the legacy asset's issuing authority.
    WrapperInactive,
    /// The policy controller declined the transfer.
    PolicyRejected,
    /// The legacy asset rejected the operation.
    CollaboratorFailure,
}

} // verus!
