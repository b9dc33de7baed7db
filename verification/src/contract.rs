//! The wrapper and its entry points.

use crate::account_authorization::{
    lemma_raise_then_restore, lemma_raised_one, lookup, raised, AccountFlags,
};
use crate::address::Address;
use crate::error::Error;
use crate::host::{AssetAction, Grant, Reply, Request, Step};
use crate::metadata::WrapperMetadata;
use crate::model::{grants_for, PendingCall, WrapperState};
use crate::validations::{
    is_admin_validation, is_contract_initialized_validation,
    is_contract_not_initialized_validation, is_wrapper_active_validation, signed_by,
};
use vstd::prelude::*;

verus! {

/// The call in flight, with what its continuation needs.
enum Pending {
    Handoff { commit: WrapperMetadata },
    Review { from: Address, to: Address, amount: i128 },
    Bracket {
        asset: Address,
        accounts: Vec<Address>,
        prior: Vec<Option<bool>>,
        action: AssetAction,
        granted: bool,
        restore: Ghost<Map<Address, bool>>,
    },
}

impl Pending {
    spec fn model(self) -> PendingCall {
        match self {
            Pending::Handoff { commit } => PendingCall::Handoff { commit },
            Pending::Review { from, to, amount } => PendingCall::Review { from, to, amount },
            Pending::Bracket { asset, accounts, prior, action, granted, restore } => {
                PendingCall::Bracket {
                    restore: restore@,
                    grants: if granted {
                        grants_for(asset, accounts@, action)
                    } else {
                        Seq::empty()
                    },
                    action,
                }
            },
        }
    }
}

/// One deployment of the wrapper: its own identity, its metadata, the account
/// authorization flags, and the call in flight.
pub struct WrapperInterface {
    contract: Address,
    metadata: Option<WrapperMetadata>,
    flags: AccountFlags,
    pending: Option<Pending>,
}

impl View for WrapperInterface {
    type V = WrapperState;

    closed spec fn view(&self) -> WrapperState {
        WrapperState {
            contract: self.contract,
            metadata: self.metadata,
            flags: self.flags@,
            pending: match self.pending {
                Some(p) => Some(p.model()),
                None => None,
            },
        }
    }
}

impl WrapperInterface {
    /// The flags hold no account twice, and a bracket in flight has raised
    /// exactly its accounts and remembers the flag that each had before.
    pub closed spec fn wf(&self) -> bool {
        &&& self.flags.wf()
        &&& match self.pending {
            Some(Pending::Bracket { asset, accounts, prior, action, granted, restore }) => {
                &&& prior@.len() == accounts@.len()
                &&& forall|k: int|
                    0 <= k < accounts@.len() ==> prior@[k] == lookup(restore@, accounts@[k])
                &&& self.flags@ == raised(restore@, accounts@)
            },
            _ => true,
        }
    }

    /// A wrapper that has never been called.
    pub fn new(contract: Address) -> (r: WrapperInterface)
        ensures
            r.wf(),
            r@ == WrapperState::fresh(contract),
    {
        WrapperInterface { contract, metadata: None, flags: AccountFlags::new(), pending: None }
    }

    /// A wrapper between two calls, with the state that an earlier call left.
    pub fn with_state(
        contract: Address,
        metadata: Option<WrapperMetadata>,
        flags: AccountFlags,
    ) -> (r: WrapperInterface)
        requires
            flags.wf(),
        ensures
            r.wf(),
            r@ == (WrapperState { contract, metadata, flags: flags@, pending: None }),
    {
        WrapperInterface { contract, metadata, flags, pending: None }
    }

    /// The wrapper's own contract identity.
    pub fn contract(&self) -> (r: Address)
        ensures
            r == self@.contract,
    {
        self.contract
    }

    /// The metadata, if the wrapper is initialized.
    pub fn metadata(&self) -> (r: Option<WrapperMetadata>)
        ensures
            r == self@.metadata,
    {
        self.metadata
    }

    /// The account authorization flags.
    pub fn flags(&self) -> (r: &AccountFlags)
        requires
            self.wf(),
        ensures
            r.wf(),
            r@ == self@.flags,
    {
        &self.flags
    }

    /// Whether a call waits for the host's reply.
    pub fn in_flight(&self) -> (r: bool)
        ensures
            r == !self@.idle(),
    {
        self.pending.is_some()
    }

    /// Whether `account` is marked as authorized at this moment.
    pub fn is_authorized(&self, account: &Address) -> (r: bool)
        requires
            self.wf(),
        ensures
            r == self@.is_authorized(*account),
    {
        self.flags.is_authorized(account)
    }

    /// The delegation grant in force: one grant for each account of the
    /// bracket in flight, and none between calls.
    pub fn delegation_grant(&self) -> (r: Vec<Grant>)
        requires
            self.wf(),
        ensures
            r@ == self@.grants(),
    {
        let mut grants: Vec<Grant> = Vec::new();
        match &self.pending {
            Some(Pending::Bracket { asset, accounts, prior, action, granted, restore }) => {
                if *granted {
                    let mut i: usize = 0;
                    while i < accounts.len()
                        invariant
                            i <= accounts@.len(),
                            grants@ == grants_for(*asset, accounts@, *action).take(i as int),
                        decreases accounts@.len() - i,
                    {
                        grants.push(
                            Grant { account: accounts[i], contract: *asset, action: *action },
                        );
                        assert(grants@ =~= grants_for(*asset, accounts@, *action).take(i + 1));
                        i += 1;
                    }
                    assert(grants@ =~= grants_for(*asset, accounts@, *action));
                }
            },
            _ => {},
        }
        grants
    }

    /// The delegation engine. Marks each account of `addresses` as
    /// authorized, grants the wrapper the right to perform `action` on the
    /// legacy asset on behalf of each, and asks the host for `action`. The
    /// reply goes to `resume`, which gives each account the flag it had
    /// before, whether the action succeeded or not, and drops the grant.
    pub fn execute_with_temporary_authorizations(
        &mut self,
        addresses: Vec<Address>,
        action: AssetAction,
    ) -> (r: Result<Step, Error>)
        requires
            old(self).wf(),
            old(self)@.idle(),
        ensures
            final(self).wf(),
            final(self)@ == old(self)@.execute_with_temporary_authorizations(addresses@, action).0,
            r == old(self)@.execute_with_temporary_authorizations(addresses@, action).1,
    {
        match is_contract_initialized_validation(&self.metadata) {
            Err(e) => Err(e),
            Ok(m) => {
                let ghost restore = self.flags@;
                let prior = self.flags.raise_all(&addresses);
                self.pending = Some(
                    Pending::Bracket {
                        asset: m.asset,
                        accounts: addresses,
                        prior,
                        action,
                        granted: true,
                        restore: Ghost(restore),
                    },
                );
                Ok(Step::Call(Request::Invoke { asset: m.asset, action }))
            },
        }
    }

    fn switch(&mut self, signers: &Vec<Address>, active: bool) -> (r: Result<Step, Error>)
        requires
            old(self).wf(),
            old(self)@.idle(),
        ensures
            final(self).wf(),
            final(self)@ == old(self)@.switch(signers@, active).0,
            r == old(self)@.switch(signers@, active).1,
    {
        match is_contract_initialized_validation(&self.metadata) {
            Err(e) => Err(e),
            Ok(m) => {
                if !signed_by(signers, &m.admin) {
                    Err(Error::Unauthorized)
                } else {
                    let commit = WrapperMetadata {
                        enforced: m.enforced,
                        is_active: active,
                        admin: m.admin,
                        asset: m.asset,
                        asset_controller: m.asset_controller,
                    };
                    let authority = if active {
                        self.contract
                    } else {
                        m.admin
                    };
                    self.pending = Some(Pending::Handoff { commit });
                    Ok(Step::Call(Request::SetIssuer { asset: m.asset, authority }))
                }
            },
        }
    }

    /// Asks the legacy asset to make the wrapper its issuing authority; once
    /// it has, the wrapper is active.
    pub fn activate_wrapper(&mut self, signers: &Vec<Address>) -> (r: Result<Step, Error>)
        requires
            old(self).wf(),
            old(self)@.idle(),
        ensures
            final(self).wf(),
            final(self)@ == old(self)@.activate_wrapper(signers@).0,
            r == old(self)@.activate_wrapper(signers@).1,
    {
        self.switch(signers, true)
    }

    /// Asks the legacy asset to make the admin its issuing authority again;
    /// once it has, the wrapper is inactive and transfers are refused.
    pub fn deactivate_wrapper(&mut self, signers: &Vec<Address>) -> (r: Result<Step, Error>)
        requires
            old(self).wf(),
            old(self)@.idle(),
        ensures
            final(self).wf(),
            final(self)@ == old(self)@.deactivate_wrapper(signers@).0,
            r == old(self)@.deactivate_wrapper(signers@).1,
    {
        self.switch(signers, false)
    }

    /// Makes `new_admin` the admin.
    pub fn set_admin(&mut self, signers: &Vec<Address>, new_admin: Address) -> (r: Result<
        (),
        Error,
    >)
        requires
            old(self).wf(),
            old(self)@.idle(),
        ensures
            final(self).wf(),
            final(self)@ == old(self)@.set_admin(signers@, new_admin).0,
            r == old(self)@.set_admin(signers@, new_admin).1,
    {
        match is_admin_validation(&self.metadata, signers) {
            Err(e) => Err(e),
            Ok(m) => {
                self.metadata = Some(
                    WrapperMetadata {
                        enforced: m.enforced,
                        is_active: m.is_active,
                        admin: new_admin,
                        asset: m.asset,
                        asset_controller: m.asset_controller,
                    },
                );
                Ok(())
            },
        }
    }

    /// Stores `authorize` as the authorization flag of `id`.
    pub fn set_authorized(&mut self, signers: &Vec<Address>, id: Address, authorize: bool) -> (r:
        Result<(), Error>)
        requires
            old(self).wf(),
            old(self)@.idle(),
        ensures
            final(self).wf(),
            final(self)@ == old(self)@.set_authorized(signers@, id, authorize).0,
            r == old(self)@.set_authorized(signers@, id, authorize).1,
    {
        match is_admin_validation(&self.metadata, signers) {
            Err(e) => Err(e),
            Ok(_) => {
                self.flags.set(id, authorize);
                Ok(())
            },
        }
    }

    /// The metadata of an initialized wrapper.
    pub fn get_metadata(&self) -> (r: Result<WrapperMetadata, Error>)
        ensures
            r == match self@.metadata {
                Some(m) => Ok::<WrapperMetadata, Error>(m),
                None => Err(Error::NotInitialized),
            },
    {
        is_contract_initialized_validation(&self.metadata)
    }

    /// Whether an initialized wrapper holds the issuing authority.
    pub fn is_wrapper_active(&self) -> (r: Result<bool, Error>)
        ensures
            r == match self@.metadata {
                Some(m) => Ok::<bool, Error>(m.is_active),
                None => Err(Error::NotInitialized),
            },
    {
        match is_contract_initialized_validation(&self.metadata) {
            Err(e) => Err(e),
            Ok(m) => Ok(m.is_active),
        }
    }

    /// The admin, if there is one.
    pub fn get_admin(&self) -> (r: Option<Address>)
        ensures
            r == match self@.metadata {
                Some(m) => Some(m.admin),
                None => None,
            },
    {
        match self.metadata {
            Some(m) => Some(m.admin),
            None => None,
        }
    }

    /// Starts a transfer: after the guards, asks the policy controller to
    /// review it. The wrapper must be initialized and active, and `from` must
    /// have signed.
    pub fn transfer(
        &mut self,
        signers: &Vec<Address>,
        from: Address,
        to: Address,
        amount: i128,
    ) -> (r: Result<Step, Error>)
        requires
            old(self).wf(),
            old(self)@.idle(),
        ensures
            final(self).wf(),
            final(self)@ == old(self)@.transfer(signers@, from, to, amount).0,
            r == old(self)@.transfer(signers@, from, to, amount).1,
    {
        match is_contract_initialized_validation(&self.metadata) {
            Err(e) => Err(e),
            Ok(m) => match is_wrapper_active_validation(&m) {
                Err(e) => Err(e),
                Ok(_) => {
                    if !signed_by(signers, &from) {
                        Err(Error::Unauthorized)
                    } else {
                        self.pending = Some(Pending::Review { from, to, amount });
                        Ok(
                            Step::Call(
                                Request::ReviewTransfer {
                                    controller: m.asset_controller,
                                    from,
                                    to,
                                    amount,
                                },
                            ),
                        )
                    }
                },
            },
        }
    }

    /// Hands the host's reply to the call in flight. A rejection ends the
    /// call with its error and with the state of before the call. An
    /// acceptance lets the call go on: a handoff commits its metadata, a
    /// reviewed transfer enters the delegation engine, and a bracket gives
    /// each of its accounts the flag it had before.
    pub fn resume(&mut self, reply: Reply) -> (r: Result<Step, Error>)
        requires
            old(self).wf(),
        ensures
            final(self).wf(),
            final(self)@ == old(self)@.resume(reply).0,
            r == old(self)@.resume(reply).1,
    {
        let pending = self.pending.take();
        match pending {
            None => Ok(Step::Done),
            Some(Pending::Handoff { commit }) => match reply {
                Reply::Accepted => {
                    self.metadata = Some(commit);
                    Ok(Step::Done)
                },
                Reply::Rejected => Err(Error::CollaboratorFailure),
            },
            Some(Pending::Review { from, to, amount }) => match reply {
                Reply::Accepted => {
                    let mut addresses: Vec<Address> = Vec::new();
                    addresses.push(from);
                    addresses.push(to);
                    assert(addresses@ =~= seq![from, to]);
                    self.execute_with_temporary_authorizations(
                        addresses,
                        AssetAction::Transfer { from, to, amount },
                    )
                },
                Reply::Rejected => Err(Error::PolicyRejected),
            },
            Some(Pending::Bracket { asset, accounts, prior, action, granted, restore }) => {
                self.flags.restore_all(&accounts, &prior);
                proof {
                    lemma_raise_then_restore(restore@, accounts@, prior@);
                }
                match reply {
                    Reply::Accepted => Ok(Step::Done),
                    Reply::Rejected => Err(Error::CollaboratorFailure),
                }
            },
        }
    }
}

/// The entry points that only this wrapper has.
pub trait SpecifcFeaturesTrait: View<V = WrapperState> + Sized {
    /// Whether the value is well formed.
    spec fn ready(&self) -> bool;

    /// Creates the metadata and asks for the legacy asset's issuing authority.
    /// Fails with `AlreadyInitialized` on an initialized wrapper, whoever
    /// signed, and with `Unauthorized` where `admin` did not sign.
    fn initialize(
        &mut self,
        signers: &Vec<Address>,
        admin: Address,
        asset: Address,
        asset_controller: Address,
    ) -> (r: Result<Step, Error>)
        requires
            old(self).ready(),
            old(self)@.idle(),
        ensures
            final(self).ready(),
            final(self)@ == old(self)@.initialize(signers@, admin, asset, asset_controller).0,
            r == old(self)@.initialize(signers@, admin, asset, asset_controller).1,
    ;

    /// Mints `amount` to `to` through the delegation engine. Only the admin
    /// may; the wrapper need not be active.
    fn mint(&mut self, signers: &Vec<Address>, to: Address, amount: i128) -> (r: Result<
        Step,
        Error,
    >)
        requires
            old(self).ready(),
            old(self)@.idle(),
        ensures
            final(self).ready(),
            final(self)@ == old(self)@.mint(signers@, to, amount).0,
            r == old(self)@.mint(signers@, to, amount).1,
    ;

    /// Mints `amount` to `to` by setting the flag of `to` around a bare mint,
    /// with no scoped grant. `resume` gives `to` the flag it had before.
    fn mint_flatten(&mut self, signers: &Vec<Address>, to: Address, amount: i128) -> (r: Result<
        Step,
        Error,
    >)
        requires
            old(self).ready(),
            old(self)@.idle(),
        ensures
            final(self).ready(),
            final(self)@ == old(self)@.mint_flatten(signers@, to, amount).0,
            r == old(self)@.mint_flatten(signers@, to, amount).1,
    ;
}

impl SpecifcFeaturesTrait for WrapperInterface {
    open spec fn ready(&self) -> bool {
        self.wf()
    }

    fn initialize(
        &mut self,
        signers: &Vec<Address>,
        admin: Address,
        asset: Address,
        asset_controller: Address,
    ) -> (r: Result<Step, Error>)
    {
        match is_contract_not_initialized_validation(&self.metadata) {
            Err(e) => Err(e),
            Ok(_) => {
                if !signed_by(signers, &admin) {
                    Err(Error::Unauthorized)
                } else {
                    let commit = WrapperMetadata {
                        enforced: true,
                        is_active: true,
                        admin,
                        asset,
                        asset_controller,
                    };
                    self.pending = Some(Pending::Handoff { commit });
                    Ok(Step::Call(Request::SetIssuer { asset, authority: self.contract }))
                }
            },
        }
    }

    fn mint(&mut self, signers: &Vec<Address>, to: Address, amount: i128) -> (r: Result<
        Step,
        Error,
    >)
    {
        match is_admin_validation(&self.metadata, signers) {
            Err(e) => Err(e),
            Ok(_) => {
                let mut addresses: Vec<Address> = Vec::new();
                addresses.push(to);
                assert(addresses@ =~= seq![to]);
                self.execute_with_temporary_authorizations(
                    addresses,
                    AssetAction::Mint { to, amount },
                )
            },
        }
    }

    fn mint_flatten(&mut self, signers: &Vec<Address>, to: Address, amount: i128) -> (r:
        Result<Step, Error>)
    {
        match is_admin_validation(&self.metadata, signers) {
            Err(e) => Err(e),
            Ok(m) => {
                let ghost restore = self.flags@;
                let action = AssetAction::Mint { to, amount };
                let before = self.flags.get(&to);
                self.flags.set(to, true);
                let mut accounts: Vec<Address> = Vec::new();
                accounts.push(to);
                let mut prior: Vec<Option<bool>> = Vec::new();
                prior.push(before);
                proof {
                    lemma_raised_one(restore, to);
                    assert(accounts@ =~= seq![to]);
                }
                self.pending = Some(
                    Pending::Bracket {
                        asset: m.asset,
                        accounts,
                        prior,
                        action,
                        granted: false,
                        restore: Ghost(restore),
                    },
                );
                Ok(Step::Call(Request::Invoke { asset: m.asset, action }))
            },
        }
    }
}

} // verus!
