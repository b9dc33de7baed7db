//! The wrapper together with its collaborators.
//!
//! The policy controller and the legacy asset are not part of the wrapper.
//! What can be said of the wrapper whatever they do is said here over an
//! arbitrary pair of them: a controller that gives some verdict on each
//! transfer, and an asset that keeps some ledger and, from that ledger and
//! the authorization flags of the moment, performs an operation or rejects
//! it. A collaborator that rejects has changed nothing.

use crate::address::Address;
use crate::error::Error;
use crate::host::{AssetAction, Reply, Request, Step};
use crate::model::{Entry, WrapperState};
use vstd::prelude::*;

verus! {

/// A policy controller and a legacy asset with a ledger of type `L`.
#[verifier::reject_recursive_types(L)]
pub struct Collaborators<L> {
    /// The controller's verdict on a transfer of `amount` from the first
    /// account to the second.
    pub review: spec_fn(Address, Address, i128) -> Reply,
    /// The asset's ledger after a change of its issuing authority, and its
    /// answer.
    pub set_issuer: spec_fn(L, Address) -> (L, Reply),
    /// The asset's ledger after an action, and its answer. Both may depend on
    /// the authorization flags that the wrapper holds while the action runs.
    pub invoke: spec_fn(L, Map<Address, bool>, AssetAction) -> (L, Reply),
}

/// The end of a call that the collaborators have answered.
#[verifier::reject_recursive_types(L)]
pub struct Played<L> {
    pub state: WrapperState,
    pub ledger: L,
    pub result: Result<(), Error>,
}

impl<L> Collaborators<L> {
    /// What the collaborators make of `request`, where the wrapper holds
    /// `flags` and the asset's ledger is `ledger`.
    pub open spec fn perform(self, ledger: L, flags: Map<Address, bool>, request: Request) -> (
        L,
        Reply,
    ) {
        let answer = match request {
            Request::ReviewTransfer { from, to, amount, .. } => (
                ledger,
                (self.review)(from, to, amount),
            ),
            Request::SetIssuer { authority, .. } => (self.set_issuer)(ledger, authority),
            Request::Invoke { action, .. } => (self.invoke)(ledger, flags, action),
        };
        if answer.1 is Rejected {
            (ledger, Reply::Rejected)
        } else {
            answer
        }
    }

    /// A call of `entry` from its first step to its end, with every request
    /// performed by these collaborators.
    pub open spec fn play(
        self,
        ledger: L,
        s: WrapperState,
        signers: Seq<Address>,
        entry: Entry,
    ) -> Played<L> {
        let begun = s.begin(signers, entry);
        match begun.1 {
            Err(e) => Played { state: begun.0, ledger, result: Err(e) },
            Ok(Step::Done) => Played { state: begun.0, ledger, result: Ok(()) },
            Ok(Step::Call(first)) => {
                let answered = self.perform(ledger, begun.0.flags, first);
                let went_on = begun.0.resume(answered.1);
                match went_on.1 {
                    Err(e) => Played { state: went_on.0, ledger: answered.0, result: Err(e) },
                    Ok(Step::Done) => Played {
                        state: went_on.0,
                        ledger: answered.0,
                        result: Ok(()),
                    },
                    Ok(Step::Call(second)) => {
                        let answered = self.perform(answered.0, went_on.0.flags, second);
                        let ended = went_on.0.resume(answered.1);
                        Played {
                            state: ended.0,
                            ledger: answered.0,
                            result: match ended.1 {
                                Ok(_) => Ok(()),
                                Err(e) => Err(e),
                            },
                        }
                    },
                }
            },
        }
    }
}

} // verus!
