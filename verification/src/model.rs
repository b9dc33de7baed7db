//! The wrapper as a transition system over mathematical values.
//!
//! Every entry point of the wrapper is a function from a state and the call's
//! inputs to the next state and a result. A result is an error, which leaves
//! the state as it was; or the word that the call is done; or the operation
//! that the host must perform before the call can go on.

use crate::account_authorization::{lookup, raised};
use crate::address::Address;
use crate::error::Error;
use crate::host::{AssetAction, Grant, Reply, Request, Step};
use crate::metadata::WrapperMetadata;
use vstd::prelude::*;

verus! {

/// A call that waits for the host's reply.
#[verifier::ext_equal]
pub enum PendingCall {
    /// The legacy asset has been asked to accept a new issuing authority;
    /// `commit` becomes the wrapper's metadata once it has.
    Handoff { commit: WrapperMetadata },
    /// The policy controller has been asked to review this transfer.
    Review { from: Address, to: Address, amount: i128 },
    /// The legacy asset has been asked to perform `action`. `restore` holds
    /// the flags of before the call, and `grants` the delegation grant that is
    /// in force while the action runs.
    Bracket { restore: Map<Address, bool>, grants: Seq<Grant>, action: AssetAction },
}

/// All that the wrapper knows.
#[verifier::ext_equal]
pub struct WrapperState {
    /// The wrapper's own contract identity.
    pub contract: Address,
    /// The configuration; present exactly when the wrapper is initialized.
    pub metadata: Option<WrapperMetadata>,
    /// The account authorization flags.
    pub flags: Map<Address, bool>,
    /// The call in flight, if any.
    pub pending: Option<PendingCall>,
}

/// A call of one entry point, with its arguments.
pub enum Entry {
    Initialize { admin: Address, asset: Address, asset_controller: Address },
    ActivateWrapper,
    DeactivateWrapper,
    SetAdmin { new_admin: Address },
    SetAuthorized { id: Address, authorize: bool },
    Transfer { from: Address, to: Address, amount: i128 },
    Mint { to: Address, amount: i128 },
    MintFlatten { to: Address, amount: i128 },
}

/// One grant for each account of `accounts`, in order, each for `action` on
/// `asset`.
pub open spec fn grants_for(asset: Address, accounts: Seq<Address>, action: AssetAction) -> Seq<
    Grant,
> {
    Seq::new(accounts.len(), |i: int| Grant { account: accounts[i], contract: asset, action })
}

/// The metadata that `initialize` writes.
pub open spec fn initial_metadata(
    admin: Address,
    asset: Address,
    asset_controller: Address,
) -> WrapperMetadata {
    WrapperMetadata { enforced: true, is_active: true, admin, asset, asset_controller }
}

impl WrapperState {
    /// The state of a wrapper that has never been called.
    pub open spec fn fresh(contract: Address) -> WrapperState {
        WrapperState { contract, metadata: None, flags: Map::empty(), pending: None }
    }

    /// Whether no call is in flight.
    pub open spec fn idle(self) -> bool {
        self.pending is None
    }

    /// The delegation grant in force.
    pub open spec fn grants(self) -> Seq<Grant> {
        match self.pending {
            Some(PendingCall::Bracket { grants, .. }) => grants,
            _ => Seq::empty(),
        }
    }

    /// Whether `account` is marked as authorized.
    pub open spec fn is_authorized(self, account: Address) -> bool {
        lookup(self.flags, account) == Some(true)
    }

    /// Whether the stored admin is among `signers`. Before initialization
    /// there is no admin, and nobody passes.
    pub open spec fn admin_signed(self, signers: Seq<Address>) -> bool {
        self.metadata matches Some(m) && signers.contains(m.admin)
    }

    /// This state after the call in flight has ended without any change.
    pub open spec fn settled(self) -> WrapperState {
        WrapperState { pending: None, ..self }
    }

    /// The delegation engine. On an initialized wrapper it marks every account
    /// of `accounts` as authorized, takes a grant to perform `action` on the
    /// legacy asset on behalf of each, remembers the flags of before, and
    /// asks the host for `action`.
    pub open spec fn execute_with_temporary_authorizations(
        self,
        accounts: Seq<Address>,
        action: AssetAction,
    ) -> (WrapperState, Result<Step, Error>) {
        match self.metadata {
            None => (self, Err(Error::NotInitialized)),
            Some(m) => (
                WrapperState {
                    flags: raised(self.flags, accounts),
                    pending: Some(
                        PendingCall::Bracket {
                            restore: self.flags,
                            grants: grants_for(m.asset, accounts, action),
                            action,
                        },
                    ),
                    ..self
                },
                Ok(Step::Call(Request::Invoke { asset: m.asset, action })),
            ),
        }
    }

    /// `initialize`: on a wrapper without metadata, signed by `admin`, asks
    /// the legacy asset to make the wrapper its issuing authority. The
    /// metadata is written once the asset has accepted.
    pub open spec fn initialize(
        self,
        signers: Seq<Address>,
        admin: Address,
        asset: Address,
        asset_controller: Address,
    ) -> (WrapperState, Result<Step, Error>) {
        if self.metadata is Some {
            (self, Err(Error::AlreadyInitialized))
        } else if !signers.contains(admin) {
            (self, Err(Error::Unauthorized))
        } else {
            (
                WrapperState {
                    pending: Some(
                        PendingCall::Handoff {
                            commit: initial_metadata(admin, asset, asset_controller),
                        },
                    ),
                    ..self
                },
                Ok(Step::Call(Request::SetIssuer { asset, authority: self.contract })),
            )
        }
    }

    /// What `activate_wrapper` and `deactivate_wrapper` share. On an
    /// initialized wrapper, signed by the admin, asks the legacy asset to make
    /// the wrapper itself (`active`) or the admin its issuing authority;
    /// `is_active` follows once the asset has accepted.
    pub open spec fn switch(self, signers: Seq<Address>, active: bool) -> (
        WrapperState,
        Result<Step, Error>,
    ) {
        match self.metadata {
            None => (self, Err(Error::NotInitialized)),
            Some(m) => if !signers.contains(m.admin) {
                (self, Err(Error::Unauthorized))
            } else {
                (
                    WrapperState {
                        pending: Some(
                            PendingCall::Handoff {
                                commit: WrapperMetadata { is_active: active, ..m },
                            },
                        ),
                        ..self
                    },
                    Ok(
                        Step::Call(
                            Request::SetIssuer {
                                asset: m.asset,
                                authority: if active {
                                    self.contract
                                } else {
                                    m.admin
                                },
                            },
                        ),
                    ),
                )
            },
        }
    }

    /// `activate_wrapper`: asks the legacy asset to make the wrapper its
    /// issuing authority.
    pub open spec fn activate_wrapper(self, signers: Seq<Address>) -> (
        WrapperState,
        Result<Step, Error>,
    ) {
        self.switch(signers, true)
    }

    /// `deactivate_wrapper`: asks the legacy asset to make the admin its
    /// issuing authority.
    pub open spec fn deactivate_wrapper(self, signers: Seq<Address>) -> (
        WrapperState,
        Result<Step, Error>,
    ) {
        self.switch(signers, false)
    }

    /// `set_admin`: signed by the admin, replaces the admin.
    pub open spec fn set_admin(self, signers: Seq<Address>, new_admin: Address) -> (
        WrapperState,
        Result<(), Error>,
    ) {
        match self.metadata {
            Some(m) if signers.contains(m.admin) => (
                WrapperState { metadata: Some(WrapperMetadata { admin: new_admin, ..m }), ..self },
                Ok(()),
            ),
            _ => (self, Err(Error::Unauthorized)),
        }
    }

    /// `set_authorized`: signed by the admin, stores the flag of `id`.
    pub open spec fn set_authorized(self, signers: Seq<Address>, id: Address, authorize: bool) -> (
        WrapperState,
        Result<(), Error>,
    ) {
        if self.admin_signed(signers) {
            (WrapperState { flags: self.flags.insert(id, authorize), ..self }, Ok(()))
        } else {
            (self, Err(Error::Unauthorized))
        }
    }

    /// `transfer`: on an initialized and active wrapper, signed by `from`,
    /// asks the policy controller to review the transfer. The guards fail in
    /// this order.
    pub open spec fn transfer(
        self,
        signers: Seq<Address>,
        from: Address,
        to: Address,
        amount: i128,
    ) -> (WrapperState, Result<Step, Error>) {
        match self.metadata {
            None => (self, Err(Error::NotInitialized)),
            Some(m) => if !m.is_active {
                (self, Err(Error::WrapperInactive))
            } else if !signers.contains(from) {
                (self, Err(Error::Unauthorized))
            } else {
                (
                    WrapperState {
                        pending: Some(PendingCall::Review { from, to, amount }),
                        ..self
                    },
                    Ok(
                        Step::Call(
                            Request::ReviewTransfer {
                                controller: m.asset_controller,
                                from,
                                to,
                                amount,
                            },
                        ),
                    ),
                )
            },
        }
    }

    /// `mint`: signed by the admin, enters the delegation engine with `to` as
    /// its one account.
    pub open spec fn mint(self, signers: Seq<Address>, to: Address, amount: i128) -> (
        WrapperState,
        Result<Step, Error>,
    ) {
        if self.admin_signed(signers) {
            self.execute_with_temporary_authorizations(seq![to], AssetAction::Mint { to, amount })
        } else {
            (self, Err(Error::Unauthorized))
        }
    }

    /// `mint_flatten`: signed by the admin, sets the flag of `to`, remembers
    /// the flags of before and asks the host for the mint, with no grant.
    pub open spec fn mint_flatten(self, signers: Seq<Address>, to: Address, amount: i128) -> (
        WrapperState,
        Result<Step, Error>,
    ) {
        match self.metadata {
            Some(m) if signers.contains(m.admin) => (
                WrapperState {
                    flags: self.flags.insert(to, true),
                    pending: Some(
                        PendingCall::Bracket {
                            restore: self.flags,
                            grants: Seq::empty(),
                            action: AssetAction::Mint { to, amount },
                        },
                    ),
                    ..self
                },
                Ok(
                    Step::Call(
                        Request::Invoke { asset: m.asset, action: AssetAction::Mint { to, amount } },
                    ),
                ),
            ),
            _ => (self, Err(Error::Unauthorized)),
        }
    }

    /// What the call in flight does with the host's reply. A rejection ends
    /// the call with the state of before the call.
    pub open spec fn resume(self, reply: Reply) -> (WrapperState, Result<Step, Error>) {
        match self.pending {
            None => (self, Ok(Step::Done)),
            Some(PendingCall::Handoff { commit }) => match reply {
                Reply::Accepted => (
                    WrapperState { metadata: Some(commit), pending: None, ..self },
                    Ok(Step::Done),
                ),
                Reply::Rejected => (self.settled(), Err(Error::CollaboratorFailure)),
            },
            Some(PendingCall::Review { from, to, amount }) => match reply {
                Reply::Accepted => self.settled().execute_with_temporary_authorizations(
                    seq![from, to],
                    AssetAction::Transfer { from, to, amount },
                ),
                Reply::Rejected => (self.settled(), Err(Error::PolicyRejected)),
            },
            Some(PendingCall::Bracket { restore, .. }) => (
                WrapperState { flags: restore, pending: None, ..self },
                match reply {
                    Reply::Accepted => Ok(Step::Done),
                    Reply::Rejected => Err(Error::CollaboratorFailure),
                },
            ),
        }
    }

    /// The first step of a call of `entry`.
    pub open spec fn begin(self, signers: Seq<Address>, entry: Entry) -> (
        WrapperState,
        Result<Step, Error>,
    ) {
        match entry {
            Entry::Initialize { admin, asset, asset_controller } => self.initialize(
                signers,
                admin,
                asset,
                asset_controller,
            ),
            Entry::ActivateWrapper => self.activate_wrapper(signers),
            Entry::DeactivateWrapper => self.deactivate_wrapper(signers),
            Entry::SetAdmin { new_admin } => {
                let next = self.set_admin(signers, new_admin);
                (
                    next.0,
                    match next.1 {
                        Ok(_) => Ok(Step::Done),
                        Err(e) => Err(e),
                    },
                )
            },
            Entry::SetAuthorized { id, authorize } => {
                let next = self.set_authorized(signers, id, authorize);
                (
                    next.0,
                    match next.1 {
                        Ok(_) => Ok(Step::Done),
                        Err(e) => Err(e),
                    },
                )
            },
            Entry::Transfer { from, to, amount } => self.transfer(signers, from, to, amount),
            Entry::Mint { to, amount } => self.mint(signers, to, amount),
            Entry::MintFlatten { to, amount } => self.mint_flatten(signers, to, amount),
        }
    }
}

} // verus!
