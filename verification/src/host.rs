//! What the wrapper asks of its host, and what the host answers.

use crate::address::Address;
use vstd::prelude::*;

verus! {

/// One operation against the legacy asset, with its arguments fixed.
#[derive(Clone, Copy, Debug, PartialEq, Eq)]
pub enum AssetAction {
    /// Move `amount` units from `from` to `to`.
    Transfer { from: Address, to: Address, amount: i128 },
    /// Issue `amount` new units to `to`.
    Mint { to: Address, amount: i128 },
}

/// Permission for the wrapper's own contract identity to invoke `action` on
/// `contract` on behalf of `account`. It covers the sub-invocations of the one
/// host operation that follows and nothing after it.
#[derive(Clone, Copy, Debug, PartialEq, Eq)]
pub struct Grant {
    pub account: Address,
    pub contract: Address,
    pub action: AssetAction,
}

/// An operation that only the host can perform.
#[derive(Clone, Copy, Debug, PartialEq, Eq)]
pub enum Request {
    /// Ask the policy controller to review a transfer.
    ReviewTransfer { controller: Address, from: Address, to: Address, amount: i128 },
    /// Make `authority` the issuing authority of the legacy asset.
    SetIssuer { asset: Address, authority: Address },
    /// Perform `action` against the legacy asset, under the grants that the
    /// wrapper holds at this moment.
    Invoke { asset: Address, action: AssetAction },
}

/// The host's answer to a request.
#[derive(Clone, Copy, Debug, PartialEq, Eq)]
pub enum Reply {
    /// The collaborator returned normally.
    Accepted,
    /// The collaborator raised a rejection.
    Rejected,
}

/// How far a call has come.
#[derive(Clone, Copy, Debug, PartialEq, Eq)]
pub enum Step {
    /// The call is complete.
    Done,
    /// The call waits for the host to perform the request and to hand the
    /// reply to `resume`.
    Call(Request),
}

impl Request {
    /// Whether the request operates on the legacy asset's ledger.
    pub open spec fn moves_asset(self) -> bool {
        self is Invoke
    }
}

} // verus!
