//! The wrapper's configuration record.

use crate::address::Address;
use vstd::prelude::*;

verus! {

/// Configuration of one wrapper deployment. It exists exactly while the
/// wrapper is initialized.
#[derive(Clone, Copy, Debug, PartialEq, Eq)]
pub struct WrapperMetadata {
    /// Whether every transfer is reviewed by the policy controller.
    pub enforced: bool,
    /// Whether the wrapper holds the legacy asset's issuing authority.
    pub is_active: bool,
    /// The privileged principal.
    pub admin: Address,
    /// The wrapped legacy asset.
    pub asset: Address,
    /// The policy controller that reviews transfers.
    pub asset_controller: Address,
}

} // verus!
