//! What holds of the wrapper whatever the inputs are. Each law is stated over
//! the transition system that the entry points implement, and proved.

use crate::account_authorization::{lemma_raised_one, lookup, raised};
use crate::address::Address;
use crate::collaborators::Collaborators;
use crate::error::Error;
use crate::host::{AssetAction, Reply, Request, Step};
use crate::metadata::WrapperMetadata;
use crate::model::{Entry, WrapperState};
use vstd::prelude::*;

verus! {

/// No permanent grant leaks. Whatever the accounts, the action and the host's
/// reply are, once a call to the delegation engine has ended, with success or
/// with failure, every account has the flag that it had immediately before
/// the call began, and no delegation grant is in force. An engine that
/// refuses to start changes nothing either.
pub proof fn delegation_restores_every_flag(
    s: WrapperState,
    accounts: Seq<Address>,
    action: AssetAction,
    reply: Reply,
)
    requires
        s.idle(),
    ensures
        ({
            let begun = s.execute_with_temporary_authorizations(accounts, action);
            let ended = begun.0.resume(reply);
            if begun.1 is Ok {
                &&& forall|a: Address| lookup(ended.0.flags, a) == lookup(s.flags, a)
                &&& ended.0 == s
                &&& ended.0.grants().len() == 0
                &&& ended.1 == if reply is Accepted {
                    Ok::<Step, Error>(Step::Done)
                } else {
                    Err(Error::CollaboratorFailure)
                }
            } else {
                begun.0 == s
            }
        }),
{
}

/// While the delegated action runs, exactly the accounts of the bracket are
/// marked as authorized beyond those that were before, and the grant names
/// each of them, in order, for that action on the legacy asset.
pub proof fn delegation_raises_its_accounts(
    s: WrapperState,
    accounts: Seq<Address>,
    action: AssetAction,
    a: Address,
)
    requires
        s.idle(),
        s.metadata is Some,
    ensures
        ({
            let begun = s.execute_with_temporary_authorizations(accounts, action);
            &&& begun.1 == Ok::<Step, Error>(
                Step::Call(Request::Invoke { asset: s.metadata->0.asset, action }),
            )
            &&& begun.0.is_authorized(a) == (accounts.contains(a) || s.is_authorized(a))
            &&& begun.0.grants().len() == accounts.len()
            &&& forall|i: int|
                0 <= i < accounts.len() ==> {
                    &&& (#[trigger] begun.0.grants()[i]).account == accounts[i]
                    &&& begun.0.grants()[i].contract == s.metadata->0.asset
                    &&& begun.0.grants()[i].action == action
                }
        }),
{
}

/// `initialize` is exactly-once. On an initialized wrapper it fails with
/// `AlreadyInitialized`, whoever signed and whatever the arguments are, and
/// changes nothing.
pub proof fn initialize_refused_once_initialized(
    s: WrapperState,
    signers: Seq<Address>,
    admin: Address,
    asset: Address,
    asset_controller: Address,
)
    requires
        s.metadata is Some,
    ensures
        s.initialize(signers, admin, asset, asset_controller) == (
            s,
            Err::<Step, Error>(Error::AlreadyInitialized),
        ),
{
}

/// A first `initialize` that the admin signed and the legacy asset accepted
/// leaves an active wrapper with the given identities, and every later
/// `initialize` fails with `AlreadyInitialized` and leaves that metadata as
/// it is.
pub proof fn initialize_succeeds_only_once(
    s: WrapperState,
    signers: Seq<Address>,
    admin: Address,
    asset: Address,
    asset_controller: Address,
    later_signers: Seq<Address>,
    later_admin: Address,
    later_asset: Address,
    later_controller: Address,
)
    requires
        s.idle(),
        s.metadata is None,
        signers.contains(admin),
    ensures
        ({
            let begun = s.initialize(signers, admin, asset, asset_controller);
            let ended = begun.0.resume(Reply::Accepted);
            let again = ended.0.initialize(later_signers, later_admin, later_asset, later_controller);
            &&& begun.1 == Ok::<Step, Error>(
                Step::Call(Request::SetIssuer { asset, authority: s.contract }),
            )
            &&& ended.1 == Ok::<Step, Error>(Step::Done)
            &&& ended.0.metadata matches Some(m) && m.is_active && m.enforced && m.admin == admin
                && m.asset == asset && m.asset_controller == asset_controller
            &&& again.1 == Err::<Step, Error>(Error::AlreadyInitialized)
            &&& again.0 == ended.0
        }),
{
}

/// After a deactivation that the legacy asset accepted, every transfer fails
/// with `WrapperInactive`, whoever signed it. The policy controller is not
/// even asked, so its verdict cannot matter.
pub proof fn no_transfer_after_deactivation(
    s: WrapperState,
    admin_signers: Seq<Address>,
    signers: Seq<Address>,
    from: Address,
    to: Address,
    amount: i128,
)
    requires
        s.idle(),
        s.admin_signed(admin_signers),
    ensures
        ({
            let begun = s.deactivate_wrapper(admin_signers);
            let ended = begun.0.resume(Reply::Accepted);
            let moved = ended.0.transfer(signers, from, to, amount);
            &&& begun.1 == Ok::<Step, Error>(
                Step::Call(
                    Request::SetIssuer {
                        asset: s.metadata->0.asset,
                        authority: s.metadata->0.admin,
                    },
                ),
            )
            &&& ended.1 == Ok::<Step, Error>(Step::Done)
            &&& moved.1 == Err::<Step, Error>(Error::WrapperInactive)
            &&& moved.0 == ended.0
        }),
{
}

/// The activation state machine has no terminal state. On an initialized
/// wrapper the admin can always activate and always deactivate, whichever
/// state the wrapper is in. Activation asks the legacy asset to make the
/// wrapper its issuing authority, deactivation to make the admin so; where
/// the asset accepts, `is_active` says which of the two it was and nothing
/// else has changed, and where it rejects, nothing has changed at all.
pub proof fn activation_can_always_be_switched(
    s: WrapperState,
    signers: Seq<Address>,
    active: bool,
    reply: Reply,
)
    requires
        s.idle(),
        s.admin_signed(signers),
    ensures
        ({
            let m = s.metadata->0;
            let begun = if active {
                s.activate_wrapper(signers)
            } else {
                s.deactivate_wrapper(signers)
            };
            let ended = begun.0.resume(reply);
            &&& begun.1 == Ok::<Step, Error>(
                Step::Call(
                    Request::SetIssuer {
                        asset: m.asset,
                        authority: if active {
                            s.contract
                        } else {
                            m.admin
                        },
                    },
                ),
            )
            &&& begun.0.metadata == s.metadata
            &&& if reply is Accepted {
                &&& ended.1 == Ok::<Step, Error>(Step::Done)
                &&& ended.0 == (WrapperState {
                    metadata: Some(WrapperMetadata { is_active: active, ..m }),
                    ..s
                })
            } else {
                &&& ended.1 == Err::<Step, Error>(Error::CollaboratorFailure)
                &&& ended.0 == s
            }
        }),
{
}

/// `mint` and `mint_flatten` agree. From the same state and with the same
/// arguments both are refused alike or ask the legacy asset for the same
/// mint; while it runs the same accounts are marked as authorized; and
/// whatever the asset replies, both end in the same state with the same
/// result, in which every account, `to` among them, has the flag of before.
/// They differ in the scoped grant alone, which only `mint` holds.
pub proof fn mint_and_mint_flatten_agree(
    s: WrapperState,
    signers: Seq<Address>,
    to: Address,
    amount: i128,
    reply: Reply,
)
    requires
        s.idle(),
    ensures
        ({
            let scoped = s.mint(signers, to, amount);
            let flat = s.mint_flatten(signers, to, amount);
            &&& scoped.1 == flat.1
            &&& scoped.0.flags == flat.0.flags
            &&& scoped.0.resume(reply) == flat.0.resume(reply)
            &&& scoped.0.resume(reply).0 == s
            &&& flat.0.grants().len() == 0
            &&& scoped.1 is Ok ==> scoped.0.grants().len() == 1
        }),
{
    lemma_raised_one(s.flags, to);
}

/// A transfer leaves the wrapper as it found it, however it ends. One that
/// the policy controller rejects fails with `PolicyRejected` before the
/// legacy asset has been asked for anything, so no balance has moved and no
/// flag stays set. One that the controller accepts reaches the legacy asset
/// as exactly that transfer, and whether the asset performs it or not, the
/// flags and the metadata are afterwards those of before.
pub proof fn transfer_leaves_no_trace(
    s: WrapperState,
    signers: Seq<Address>,
    from: Address,
    to: Address,
    amount: i128,
    verdict: Reply,
    outcome: Reply,
)
    requires
        s.idle(),
    ensures
        ({
            let begun = s.transfer(signers, from, to, amount);
            let reviewed = begun.0.resume(verdict);
            let ended = reviewed.0.resume(outcome);
            if begun.1 is Err {
                begun.0 == s
            } else {
                &&& begun.1 == Ok::<Step, Error>(
                    Step::Call(
                        Request::ReviewTransfer {
                            controller: s.metadata->0.asset_controller,
                            from,
                            to,
                            amount,
                        },
                    ),
                )
                &&& !begun.1->Ok_0->Call_0.moves_asset()
                &&& begun.0.flags == s.flags
                &&& if verdict is Rejected {
                    &&& reviewed.1 == Err::<Step, Error>(Error::PolicyRejected)
                    &&& reviewed.0 == s
                } else {
                    &&& reviewed.1 == Ok::<Step, Error>(
                        Step::Call(
                            Request::Invoke {
                                asset: s.metadata->0.asset,
                                action: AssetAction::Transfer { from, to, amount },
                            },
                        ),
                    )
                    &&& ended.0 == s
                    &&& ended.1 == if outcome is Accepted {
                        Ok::<Step, Error>(Step::Done)
                    } else {
                        Err(Error::CollaboratorFailure)
                    }
                }
            }
        }),
{
}

/// Only the current admin can execute the privileged entry points. On an
/// initialized wrapper, a call of `set_admin`, `set_authorized`,
/// `activate_wrapper`, `deactivate_wrapper`, `mint` or `mint_flatten` that the
/// admin did not sign fails with `Unauthorized`, whatever its arguments are,
/// and changes nothing.
pub proof fn privileged_calls_need_the_admin(
    s: WrapperState,
    signers: Seq<Address>,
    new_admin: Address,
    id: Address,
    authorize: bool,
    to: Address,
    amount: i128,
)
    requires
        s.metadata is Some,
        !s.admin_signed(signers),
    ensures
        s.set_admin(signers, new_admin) == (s, Err::<(), Error>(Error::Unauthorized)),
        s.set_authorized(signers, id, authorize) == (s, Err::<(), Error>(Error::Unauthorized)),
        s.activate_wrapper(signers) == (s, Err::<Step, Error>(Error::Unauthorized)),
        s.deactivate_wrapper(signers) == (s, Err::<Step, Error>(Error::Unauthorized)),
        s.mint(signers, to, amount) == (s, Err::<Step, Error>(Error::Unauthorized)),
        s.mint_flatten(signers, to, amount) == (s, Err::<Step, Error>(Error::Unauthorized)),
{
}

/// Before initialization there is no admin. The entry points that are gated
/// by the admin alone refuse every caller with `Unauthorized`; those that
/// also ask for an initialized wrapper fail with `NotInitialized`.
pub proof fn nobody_is_admin_before_initialization(
    s: WrapperState,
    signers: Seq<Address>,
    new_admin: Address,
    id: Address,
    authorize: bool,
    to: Address,
    amount: i128,
)
    requires
        s.metadata is None,
    ensures
        s.set_admin(signers, new_admin) == (s, Err::<(), Error>(Error::Unauthorized)),
        s.set_authorized(signers, id, authorize) == (s, Err::<(), Error>(Error::Unauthorized)),
        s.mint(signers, to, amount) == (s, Err::<Step, Error>(Error::Unauthorized)),
        s.mint_flatten(signers, to, amount) == (s, Err::<Step, Error>(Error::Unauthorized)),
        s.activate_wrapper(signers) == (s, Err::<Step, Error>(Error::NotInitialized)),
        s.deactivate_wrapper(signers) == (s, Err::<Step, Error>(Error::NotInitialized)),
        s.transfer(signers, to, id, amount) == (s, Err::<Step, Error>(Error::NotInitialized)),
{
}

/// Every call ends. A call asks the host for at most two operations, and
/// when it has ended, with its first step or after a reply, no call is in
/// flight and no grant is in force.
pub proof fn every_call_ends(
    s: WrapperState,
    signers: Seq<Address>,
    entry: Entry,
    first: Reply,
    second: Reply,
)
    requires
        s.idle(),
    ensures
        ({
            let begun = s.begin(signers, entry);
            let went_on = begun.0.resume(first);
            let ended = went_on.0.resume(second);
            &&& !(begun.1 matches Ok(Step::Call(_))) ==> begun.0.idle() && begun.0.grants().len()
                == 0
            &&& !(went_on.1 matches Ok(Step::Call(_))) ==> went_on.0.idle()
                && went_on.0.grants().len() == 0
            &&& !(ended.1 matches Ok(Step::Call(_)))
            &&& ended.0.idle()
            &&& ended.0.grants().len() == 0
        }),
{
}

/// Each part of the state has its one writer, whatever the collaborators
/// do. The metadata exists after a call exactly if it existed before or the
/// call was a successful `initialize`. Of an initialized wrapper, `enforced`,
/// `asset` and `asset_controller` never change; `is_active` changes only
/// through `activate_wrapper` and `deactivate_wrapper`, and `admin` only
/// through `set_admin`, each signed by the admin of before. The flags that a
/// call leaves differ from those it found only after a `set_authorized` that
/// the admin signed.
pub proof fn each_field_has_one_writer<L>(
    c: Collaborators<L>,
    ledger: L,
    s: WrapperState,
    signers: Seq<Address>,
    entry: Entry,
)
    requires
        s.idle(),
    ensures
        ({
            let end = c.play(ledger, s, signers, entry);
            &&& end.state.contract == s.contract
            &&& end.state.metadata is Some <==> s.metadata is Some || (entry is Initialize
                && end.result is Ok)
            &&& s.metadata is Some ==> {
                &&& end.state.metadata->0.enforced == s.metadata->0.enforced
                &&& end.state.metadata->0.asset == s.metadata->0.asset
                &&& end.state.metadata->0.asset_controller == s.metadata->0.asset_controller
                &&& end.state.metadata->0.is_active != s.metadata->0.is_active ==> (entry
                    is ActivateWrapper || entry is DeactivateWrapper) && s.admin_signed(signers)
                &&& end.state.metadata->0.admin != s.metadata->0.admin ==> entry is SetAdmin
                    && s.admin_signed(signers)
            }
            &&& end.state.flags != s.flags ==> entry is SetAuthorized && s.admin_signed(signers)
            &&& end.state.idle()
        }),
{
}

/// A failed call has moved no balance and changed no state: whatever the
/// collaborators are, when a call fails the asset's ledger and the wrapper
/// are as they were before the call. The wrapper never lets the asset act
/// and fails afterwards.
pub proof fn failed_call_moves_no_balance<L>(
    c: Collaborators<L>,
    ledger: L,
    s: WrapperState,
    signers: Seq<Address>,
    entry: Entry,
)
    requires
        s.idle(),
    ensures
        c.play(ledger, s, signers, entry).result is Err ==> {
            &&& c.play(ledger, s, signers, entry).ledger == ledger
            &&& c.play(ledger, s, signers, entry).state == s
        },
{
}

/// A transfer that the policy controller rejects fails with
/// `PolicyRejected`, leaves every balance as it was, and leaves no flag set
/// and no grant in force, whatever the legacy asset would have done.
pub proof fn rejected_transfer_moves_no_balance<L>(
    c: Collaborators<L>,
    ledger: L,
    s: WrapperState,
    signers: Seq<Address>,
    from: Address,
    to: Address,
    amount: i128,
)
    requires
        s.idle(),
        s.metadata matches Some(m) && m.is_active,
        signers.contains(from),
        (c.review)(from, to, amount) is Rejected,
    ensures
        ({
            let end = c.play(ledger, s, signers, Entry::Transfer { from, to, amount });
            &&& end.result == Err::<(), Error>(Error::PolicyRejected)
            &&& end.ledger == ledger
            &&& end.state == s
            &&& end.state.grants().len() == 0
        }),
{
}

/// A transfer that passes the guards and the review reaches the legacy
/// asset exactly once, as that transfer, with `from` and `to` marked as
/// authorized; the ledger is the one that the asset leaves.
pub proof fn accepted_transfer_reaches_the_asset_once<L>(
    c: Collaborators<L>,
    ledger: L,
    s: WrapperState,
    signers: Seq<Address>,
    from: Address,
    to: Address,
    amount: i128,
)
    requires
        s.idle(),
        s.metadata matches Some(m) && m.is_active,
        signers.contains(from),
        (c.review)(from, to, amount) is Accepted,
    ensures
        ({
            let end = c.play(ledger, s, signers, Entry::Transfer { from, to, amount });
            let action = AssetAction::Transfer { from, to, amount };
            let during = raised(s.flags, seq![from, to]);
            let asked = (c.invoke)(ledger, during, action);
            &&& lookup(during, from) == Some(true)
            &&& lookup(during, to) == Some(true)
            &&& end.state == s
            &&& if asked.1 is Accepted {
                end.result == Ok::<(), Error>(()) && end.ledger == asked.0
            } else {
                end.result == Err::<(), Error>(Error::CollaboratorFailure) && end.ledger == ledger
            }
        }),
{
    assert(seq![from, to][0] == from);
    assert(seq![from, to][1] == to);
}

/// While the wrapper is inactive no transfer moves a balance, whatever the
/// policy controller says and whoever signed.
pub proof fn inactive_wrapper_moves_no_balance<L>(
    c: Collaborators<L>,
    ledger: L,
    s: WrapperState,
    signers: Seq<Address>,
    from: Address,
    to: Address,
    amount: i128,
)
    requires
        s.idle(),
        s.metadata matches Some(m) && !m.is_active,
    ensures
        ({
            let end = c.play(ledger, s, signers, Entry::Transfer { from, to, amount });
            &&& end.result == Err::<(), Error>(Error::WrapperInactive)
            &&& end.ledger == ledger
            &&& end.state == s
        }),
{
}

/// `mint` and `mint_flatten` are the same to everyone outside. From the same
/// state and the same ledger, against the same collaborators, both end with
/// the same result, the same balances and the same flags; and the flags are
/// those of before.
pub proof fn mint_and_mint_flatten_leave_the_same_balances<L>(
    c: Collaborators<L>,
    ledger: L,
    s: WrapperState,
    signers: Seq<Address>,
    to: Address,
    amount: i128,
)
    requires
        s.idle(),
    ensures
        ({
            let scoped = c.play(ledger, s, signers, Entry::Mint { to, amount });
            let flat = c.play(ledger, s, signers, Entry::MintFlatten { to, amount });
            &&& scoped.result == flat.result
            &&& scoped.ledger == flat.ledger
            &&& scoped.state == flat.state
            &&& scoped.state == s
        }),
{
    lemma_raised_one(s.flags, to);
}

} // verus!
