use classic_asset_wrapper::{
    AccountFlags, Address, AssetAction, Error, Grant, Reply, Request, SpecifcFeaturesTrait, Step,
    WrapperInterface, WrapperMetadata,
};
use std::collections::HashMap;

fn addr(kind: u8, tag: u8) -> Address {
    let mut key = [b'A'; 56];
    key[0] = kind;
    key[55] = tag;
    Address::new(key)
}

fn wrapper_id() -> Address {
    addr(b'C', b'W')
}

fn admin() -> Address {
    addr(b'G', b'A')
}

fn asset() -> Address {
    addr(b'C', b'X')
}

fn controller() -> Address {
    addr(b'C', b'P')
}

fn user(n: u8) -> Address {
    addr(b'G', b'0' + n)
}

/// A stand-in for the legacy asset and the policy controller.
struct Host {
    issuer: Option<Address>,
    balances: HashMap<Address, i128>,
    approve: bool,
    seen: Vec<Request>,
    flags_during_action: Vec<(Address, bool)>,
    grants_during_action: Vec<Grant>,
}

impl Host {
    fn new() -> Host {
        Host {
            issuer: None,
            balances: HashMap::new(),
            approve: true,
            seen: Vec::new(),
            flags_during_action: Vec::new(),
            grants_during_action: Vec::new(),
        }
    }

    fn balance(&self, id: &Address) -> i128 {
        *self.balances.get(id).unwrap_or(&0)
    }

    fn perform(&mut self, wrapper: &WrapperInterface, request: Request) -> Reply {
        self.seen.push(request);
        match request {
            Request::ReviewTransfer { .. } => {
                if self.approve {
                    Reply::Accepted
                } else {
                    Reply::Rejected
                }
            }
            Request::SetIssuer { authority, .. } => {
                self.issuer = Some(authority);
                Reply::Accepted
            }
            Request::Invoke { action, .. } => {
                self.grants_during_action = wrapper.delegation_grant();
                match action {
                    AssetAction::Transfer { from, to, amount } => {
                        self.flags_during_action = vec![
                            (from, wrapper.is_authorized(&from)),
                            (to, wrapper.is_authorized(&to)),
                        ];
                        if amount < 0 || self.balance(&from) < amount {
                            return Reply::Rejected;
                        }
                        *self.balances.entry(from).or_insert(0) -= amount;
                        *self.balances.entry(to).or_insert(0) += amount;
                        Reply::Accepted
                    }
                    AssetAction::Mint { to, amount } => {
                        self.flags_during_action = vec![(to, wrapper.is_authorized(&to))];
                        if amount < 0 {
                            return Reply::Rejected;
                        }
                        *self.balances.entry(to).or_insert(0) += amount;
                        Reply::Accepted
                    }
                }
            }
        }
    }
}

/// Runs a call to its end, as a host does.
fn drive(
    wrapper: &mut WrapperInterface,
    host: &mut Host,
    first: Result<Step, Error>,
) -> Result<(), Error> {
    let mut step = first;
    loop {
        match step {
            Err(e) => {
                assert!(!wrapper.in_flight());
                return Err(e);
            }
            Ok(Step::Done) => {
                assert!(!wrapper.in_flight());
                return Ok(());
            }
            Ok(Step::Call(request)) => {
                assert!(wrapper.in_flight());
                let reply = host.perform(wrapper, request);
                step = wrapper.resume(reply);
            }
        }
    }
}

fn initialized(host: &mut Host) -> WrapperInterface {
    let mut w = WrapperInterface::new(wrapper_id());
    let first = w.initialize(&vec![admin()], admin(), asset(), controller());
    assert_eq!(drive(&mut w, host, first), Ok(()));
    w
}

fn snapshot(w: &WrapperInterface) -> (Option<WrapperMetadata>, Vec<(Address, Option<bool>)>) {
    let probes = vec![admin(), asset(), controller(), wrapper_id(), user(1), user(2), user(3)];
    let flags = probes.iter().map(|a| (*a, w.flags().get(a))).collect();
    (w.metadata(), flags)
}

#[test]
fn fresh_wrapper_is_uninitialized() {
    let w = WrapperInterface::new(wrapper_id());
    assert_eq!(w.contract(), wrapper_id());
    assert_eq!(w.metadata(), None);
    assert_eq!(w.get_metadata(), Err(Error::NotInitialized));
    assert_eq!(w.is_wrapper_active(), Err(Error::NotInitialized));
    assert_eq!(w.get_admin(), None);
    assert!(!w.in_flight());
    assert!(w.delegation_grant().is_empty());
    assert!(!w.is_authorized(&user(1)));
}

#[test]
fn initialize_asks_for_the_issuing_authority() {
    let mut w = WrapperInterface::new(wrapper_id());
    let step = w.initialize(&vec![admin()], admin(), asset(), controller());
    assert_eq!(
        step,
        Ok(Step::Call(Request::SetIssuer { asset: asset(), authority: wrapper_id() }))
    );
    assert!(w.in_flight());
    assert_eq!(w.metadata(), None);
    assert_eq!(w.resume(Reply::Accepted), Ok(Step::Done));
    assert_eq!(
        w.get_metadata(),
        Ok(WrapperMetadata {
            enforced: true,
            is_active: true,
            admin: admin(),
            asset: asset(),
            asset_controller: controller(),
        })
    );
    assert_eq!(w.is_wrapper_active(), Ok(true));
    assert_eq!(w.get_admin(), Some(admin()));
}

#[test]
fn initialize_needs_the_admin_signature() {
    let mut w = WrapperInterface::new(wrapper_id());
    assert_eq!(
        w.initialize(&vec![user(1)], admin(), asset(), controller()),
        Err(Error::Unauthorized)
    );
    assert_eq!(w.initialize(&vec![], admin(), asset(), controller()), Err(Error::Unauthorized));
    assert!(!w.in_flight());
    assert_eq!(w.metadata(), None);
}

#[test]
fn initialize_rolls_back_when_the_asset_refuses() {
    let mut w = WrapperInterface::new(wrapper_id());
    let step = w.initialize(&vec![admin()], admin(), asset(), controller());
    assert!(matches!(step, Ok(Step::Call(Request::SetIssuer { .. }))));
    assert_eq!(w.resume(Reply::Rejected), Err(Error::CollaboratorFailure));
    assert_eq!(w.metadata(), None);
    assert!(!w.in_flight());
    let again = w.initialize(&vec![admin()], admin(), asset(), controller());
    assert!(matches!(again, Ok(Step::Call(_))));
}

#[test]
fn initialize_is_exactly_once() {
    let mut host = Host::new();
    let mut w = initialized(&mut host);
    let before = snapshot(&w);
    assert_eq!(
        w.initialize(&vec![admin()], admin(), asset(), controller()),
        Err(Error::AlreadyInitialized)
    );
    assert_eq!(
        w.initialize(&vec![user(1)], user(1), user(2), user(3)),
        Err(Error::AlreadyInitialized)
    );
    assert_eq!(w.initialize(&vec![], user(1), user(2), user(3)), Err(Error::AlreadyInitialized));
    assert_eq!(snapshot(&w), before);
    assert!(!w.in_flight());
}

#[test]
fn scenario_transfer_then_deactivate() {
    let mut host = Host::new();
    host.balances.insert(user(1), 80);
    host.balances.insert(user(2), 5);
    let mut w = initialized(&mut host);
    assert_eq!(host.issuer, Some(wrapper_id()));
    assert_eq!(w.is_wrapper_active(), Ok(true));

    let first = w.transfer(&vec![user(1)], user(1), user(2), 50);
    assert_eq!(drive(&mut w, &mut host, first), Ok(()));
    assert_eq!(host.balance(&user(1)), 30);
    assert_eq!(host.balance(&user(2)), 55);

    let first = w.deactivate_wrapper(&vec![admin()]);
    assert_eq!(drive(&mut w, &mut host, first), Ok(()));
    assert_eq!(w.is_wrapper_active(), Ok(false));
    assert_eq!(host.issuer, Some(admin()));

    let first = w.transfer(&vec![user(1)], user(1), user(2), 1);
    assert_eq!(first, Err(Error::WrapperInactive));
    assert_eq!(drive(&mut w, &mut host, first), Err(Error::WrapperInactive));
    assert_eq!(host.balance(&user(1)), 30);
    assert_eq!(host.balance(&user(2)), 55);
}

#[test]
fn transfer_talks_to_the_controller_then_to_the_asset() {
    let mut host = Host::new();
    host.balances.insert(user(1), 10);
    let mut w = initialized(&mut host);
    host.seen.clear();
    let step = w.transfer(&vec![user(1)], user(1), user(2), 7);
    assert_eq!(
        step,
        Ok(Step::Call(Request::ReviewTransfer {
            controller: controller(),
            from: user(1),
            to: user(2),
            amount: 7,
        }))
    );
    assert!(w.delegation_grant().is_empty());
    assert!(!w.is_authorized(&user(1)));
    let action = AssetAction::Transfer { from: user(1), to: user(2), amount: 7 };
    assert_eq!(
        w.resume(Reply::Accepted),
        Ok(Step::Call(Request::Invoke { asset: asset(), action }))
    );
    assert!(w.is_authorized(&user(1)));
    assert!(w.is_authorized(&user(2)));
    assert!(!w.is_authorized(&user(3)));
    assert_eq!(
        w.delegation_grant(),
        vec![
            Grant { account: user(1), contract: asset(), action },
            Grant { account: user(2), contract: asset(), action },
        ]
    );
    assert_eq!(w.resume(Reply::Accepted), Ok(Step::Done));
    assert!(!w.is_authorized(&user(1)));
    assert!(!w.is_authorized(&user(2)));
    assert!(w.delegation_grant().is_empty());
    assert_eq!(w.flags().get(&user(1)), None);
    assert_eq!(w.flags().get(&user(2)), None);
}

#[test]
fn transfer_guards_come_in_order() {
    let mut w = WrapperInterface::new(wrapper_id());
    assert_eq!(w.transfer(&vec![], user(1), user(2), 1), Err(Error::NotInitialized));
    let mut host = Host::new();
    let mut w = initialized(&mut host);
    assert_eq!(w.transfer(&vec![], user(1), user(2), 1), Err(Error::Unauthorized));
    assert_eq!(w.transfer(&vec![user(2), admin()], user(1), user(2), 1), Err(Error::Unauthorized));
    let first = w.deactivate_wrapper(&vec![admin()]);
    assert_eq!(drive(&mut w, &mut host, first), Ok(()));
    assert_eq!(w.transfer(&vec![], user(1), user(2), 1), Err(Error::WrapperInactive));
    assert!(!w.in_flight());
}

#[test]
fn deactivated_wrapper_refuses_transfer_whatever_the_policy() {
    for approve in [true, false] {
        let mut host = Host::new();
        host.balances.insert(user(1), 10);
        host.approve = approve;
        let mut w = initialized(&mut host);
        let first = w.deactivate_wrapper(&vec![admin()]);
        assert_eq!(drive(&mut w, &mut host, first), Ok(()));
        host.seen.clear();
        let first = w.transfer(&vec![user(1)], user(1), user(2), 1);
        assert_eq!(drive(&mut w, &mut host, first), Err(Error::WrapperInactive));
        assert!(host.seen.is_empty());
        assert_eq!(host.balance(&user(1)), 10);
        assert_eq!(host.balance(&user(2)), 0);
    }
}

#[test]
fn activation_can_be_toggled() {
    let mut host = Host::new();
    let mut w = initialized(&mut host);
    let step = w.deactivate_wrapper(&vec![admin()]);
    assert_eq!(step, Ok(Step::Call(Request::SetIssuer { asset: asset(), authority: admin() })));
    assert_eq!(w.is_wrapper_active(), Ok(true));
    assert_eq!(w.resume(Reply::Accepted), Ok(Step::Done));
    assert_eq!(w.is_wrapper_active(), Ok(false));
    let step = w.activate_wrapper(&vec![admin()]);
    assert_eq!(
        step,
        Ok(Step::Call(Request::SetIssuer { asset: asset(), authority: wrapper_id() }))
    );
    assert_eq!(w.resume(Reply::Accepted), Ok(Step::Done));
    assert_eq!(w.is_wrapper_active(), Ok(true));
    let step = w.activate_wrapper(&vec![admin()]);
    assert!(matches!(step, Ok(Step::Call(_))));
    assert_eq!(w.resume(Reply::Rejected), Err(Error::CollaboratorFailure));
    assert_eq!(w.is_wrapper_active(), Ok(true));
    let step = w.deactivate_wrapper(&vec![admin()]);
    assert!(matches!(step, Ok(Step::Call(_))));
    assert_eq!(w.resume(Reply::Rejected), Err(Error::CollaboratorFailure));
    assert_eq!(w.is_wrapper_active(), Ok(true));
    let m = w.get_metadata().unwrap();
    assert!(m.enforced);
    assert_eq!((m.admin, m.asset, m.asset_controller), (admin(), asset(), controller()));
}

#[test]
fn activation_needs_an_initialized_wrapper() {
    let mut w = WrapperInterface::new(wrapper_id());
    assert_eq!(w.activate_wrapper(&vec![admin()]), Err(Error::NotInitialized));
    assert_eq!(w.deactivate_wrapper(&vec![admin()]), Err(Error::NotInitialized));
}

#[test]
fn rejected_transfer_leaves_no_trace() {
    let mut host = Host::new();
    host.balances.insert(user(1), 10);
    host.approve = false;
    let mut w = initialized(&mut host);
    assert_eq!(w.set_authorized(&vec![admin()], user(2), true), Ok(()));
    let before = snapshot(&w);
    host.seen.clear();
    let first = w.transfer(&vec![user(1)], user(1), user(2), 4);
    assert_eq!(drive(&mut w, &mut host, first), Err(Error::PolicyRejected));
    assert_eq!(host.seen.len(), 1);
    assert!(matches!(host.seen[0], Request::ReviewTransfer { .. }));
    assert_eq!(host.balance(&user(1)), 10);
    assert_eq!(host.balance(&user(2)), 0);
    assert_eq!(snapshot(&w), before);
    assert!(!w.is_authorized(&user(1)));
    assert!(w.is_authorized(&user(2)));
    assert!(w.delegation_grant().is_empty());
}

#[test]
fn failed_transfer_restores_the_flags() {
    let mut host = Host::new();
    host.balances.insert(user(1), 3);
    let mut w = initialized(&mut host);
    assert_eq!(w.set_authorized(&vec![admin()], user(1), true), Ok(()));
    assert_eq!(w.set_authorized(&vec![admin()], user(3), false), Ok(()));
    let before = snapshot(&w);
    let first = w.transfer(&vec![user(1)], user(1), user(2), 4);
    assert_eq!(drive(&mut w, &mut host, first), Err(Error::CollaboratorFailure));
    assert_eq!(host.flags_during_action, vec![(user(1), true), (user(2), true)]);
    assert_eq!(host.balance(&user(1)), 3);
    assert_eq!(host.balance(&user(2)), 0);
    assert_eq!(snapshot(&w), before);
    assert_eq!(w.flags().get(&user(1)), Some(true));
    assert_eq!(w.flags().get(&user(2)), None);
    assert_eq!(w.flags().get(&user(3)), Some(false));
}

#[test]
fn transfer_to_oneself_restores_the_flag() {
    let mut host = Host::new();
    host.balances.insert(user(1), 3);
    let mut w = initialized(&mut host);
    for stored in [None, Some(false), Some(true)] {
        let mut flags = AccountFlags::new();
        flags.assign(user(1), stored);
        let mut w = WrapperInterface::with_state(wrapper_id(), w.metadata(), flags);
        let first = w.transfer(&vec![user(1)], user(1), user(1), 2);
        assert_eq!(drive(&mut w, &mut host, first), Ok(()));
        assert_eq!(host.grants_during_action.len(), 2);
        assert_eq!(host.flags_during_action, vec![(user(1), true), (user(1), true)]);
        assert_eq!(w.flags().get(&user(1)), stored);
    }
    assert_eq!(host.balance(&user(1)), 3);
    assert_eq!(w.set_authorized(&vec![admin()], user(1), true), Ok(()));
}

#[test]
fn engine_restores_each_flag_on_success_and_on_failure() {
    let mut host = Host::new();
    let w = initialized(&mut host);
    let accounts = vec![user(1), user(2), user(1), user(3)];
    let action = AssetAction::Mint { to: user(1), amount: 9 };
    for reply in [Reply::Accepted, Reply::Rejected] {
        let mut flags = AccountFlags::new();
        flags.set(user(1), false);
        flags.set(user(2), true);
        let mut w = WrapperInterface::with_state(wrapper_id(), w.metadata(), flags);
        let before = snapshot(&w);
        let step = w.execute_with_temporary_authorizations(accounts.clone(), action);
        assert_eq!(step, Ok(Step::Call(Request::Invoke { asset: asset(), action })));
        assert!(w.is_authorized(&user(1)));
        assert!(w.is_authorized(&user(2)));
        assert!(w.is_authorized(&user(3)));
        assert!(!w.is_authorized(&admin()));
        let grants = w.delegation_grant();
        assert_eq!(grants.len(), 4);
        for (grant, account) in grants.iter().zip(accounts.iter()) {
            assert_eq!(*grant, Grant { account: *account, contract: asset(), action });
        }
        let ended = w.resume(reply);
        match reply {
            Reply::Accepted => assert_eq!(ended, Ok(Step::Done)),
            Reply::Rejected => assert_eq!(ended, Err(Error::CollaboratorFailure)),
        }
        assert_eq!(snapshot(&w), before);
        assert_eq!(w.flags().get(&user(1)), Some(false));
        assert_eq!(w.flags().get(&user(2)), Some(true));
        assert_eq!(w.flags().get(&user(3)), None);
        assert!(w.delegation_grant().is_empty());
        assert!(!w.in_flight());
    }
}

#[test]
fn engine_with_no_account_only_runs_the_action() {
    let mut host = Host::new();
    let mut w = initialized(&mut host);
    let action = AssetAction::Mint { to: user(1), amount: 9 };
    let before = snapshot(&w);
    let step = w.execute_with_temporary_authorizations(vec![], action);
    assert_eq!(step, Ok(Step::Call(Request::Invoke { asset: asset(), action })));
    assert!(w.delegation_grant().is_empty());
    assert_eq!(snapshot(&w), before);
    assert_eq!(w.resume(Reply::Accepted), Ok(Step::Done));
    assert_eq!(snapshot(&w), before);
}

#[test]
fn engine_needs_an_initialized_wrapper() {
    let mut w = WrapperInterface::new(wrapper_id());
    let action = AssetAction::Mint { to: user(1), amount: 9 };
    assert_eq!(
        w.execute_with_temporary_authorizations(vec![user(1)], action),
        Err(Error::NotInitialized)
    );
    assert!(!w.in_flight());
    assert!(!w.is_authorized(&user(1)));
}

#[test]
fn mint_and_mint_flatten_end_alike() {
    for stored in [None, Some(false), Some(true)] {
        for reply_ok in [true, false] {
            let mut ends = Vec::new();
            for flat in [false, true] {
                let mut host = Host::new();
                host.balances.insert(user(1), 4);
                let w = initialized(&mut host);
                let mut flags = AccountFlags::new();
                flags.assign(user(1), stored);
                flags.set(user(2), true);
                let mut w = WrapperInterface::with_state(wrapper_id(), w.metadata(), flags);
                let amount = if reply_ok { 6 } else { -6 };
                let first = if flat {
                    w.mint_flatten(&vec![admin()], user(1), amount)
                } else {
                    w.mint(&vec![admin()], user(1), amount)
                };
                assert_eq!(
                    first,
                    Ok(Step::Call(Request::Invoke {
                        asset: asset(),
                        action: AssetAction::Mint { to: user(1), amount },
                    }))
                );
                let result = drive(&mut w, &mut host, first);
                assert_eq!(host.flags_during_action, vec![(user(1), true)]);
                assert_eq!(host.grants_during_action.len(), if flat { 0 } else { 1 });
                assert_eq!(w.flags().get(&user(1)), stored);
                ends.push((result, host.balance(&user(1)), snapshot(&w)));
            }
            assert_eq!(ends[0], ends[1]);
            let expected = if reply_ok { (Ok(()), 10) } else { (Err(Error::CollaboratorFailure), 4) };
            assert_eq!((ends[0].0, ends[0].1), expected);
        }
    }
}

#[test]
fn mint_works_while_the_wrapper_is_inactive() {
    let mut host = Host::new();
    let mut w = initialized(&mut host);
    let first = w.deactivate_wrapper(&vec![admin()]);
    assert_eq!(drive(&mut w, &mut host, first), Ok(()));
    let first = w.mint(&vec![admin()], user(1), 12);
    assert_eq!(drive(&mut w, &mut host, first), Ok(()));
    let first = w.mint_flatten(&vec![admin()], user(1), 3);
    assert_eq!(drive(&mut w, &mut host, first), Ok(()));
    assert_eq!(host.balance(&user(1)), 15);
    assert_eq!(
        host.grants_during_action,
        Vec::<Grant>::new()
    );
}

#[test]
fn mint_holds_one_grant_for_the_receiver() {
    let mut host = Host::new();
    let mut w = initialized(&mut host);
    let first = w.mint(&vec![admin()], user(1), 12);
    assert_eq!(drive(&mut w, &mut host, first), Ok(()));
    assert_eq!(
        host.grants_during_action,
        vec![Grant {
            account: user(1),
            contract: asset(),
            action: AssetAction::Mint { to: user(1), amount: 12 },
        }]
    );
    assert!(w.delegation_grant().is_empty());
}

#[test]
fn only_the_admin_may_use_the_privileged_entry_points() {
    let mut host = Host::new();
    let mut w = initialized(&mut host);
    assert_eq!(w.set_authorized(&vec![admin()], user(2), true), Ok(()));
    let before = snapshot(&w);
    for signers in [vec![], vec![user(1)], vec![user(1), user(2), asset(), wrapper_id()]] {
        assert_eq!(w.set_admin(&signers, user(1)), Err(Error::Unauthorized));
        assert_eq!(w.set_authorized(&signers, user(1), true), Err(Error::Unauthorized));
        assert_eq!(w.activate_wrapper(&signers), Err(Error::Unauthorized));
        assert_eq!(w.deactivate_wrapper(&signers), Err(Error::Unauthorized));
        assert_eq!(w.mint(&signers, user(1), 5), Err(Error::Unauthorized));
        assert_eq!(w.mint_flatten(&signers, user(1), 5), Err(Error::Unauthorized));
        assert!(!w.in_flight());
        assert_eq!(snapshot(&w), before);
    }
    assert_eq!(w.set_authorized(&vec![user(1), admin()], user(1), true), Ok(()));
}

#[test]
fn nobody_is_admin_before_initialization() {
    let mut w = WrapperInterface::new(wrapper_id());
    let signers = vec![admin(), user(1)];
    assert_eq!(w.set_admin(&signers, user(1)), Err(Error::Unauthorized));
    assert_eq!(w.set_authorized(&signers, user(1), true), Err(Error::Unauthorized));
    assert_eq!(w.mint(&signers, user(1), 5), Err(Error::Unauthorized));
    assert_eq!(w.mint_flatten(&signers, user(1), 5), Err(Error::Unauthorized));
    assert_eq!(w.metadata(), None);
    assert_eq!(w.flags().get(&user(1)), None);
}

#[test]
fn set_admin_hands_the_privilege_over() {
    let mut host = Host::new();
    let mut w = initialized(&mut host);
    assert_eq!(w.set_admin(&vec![admin()], user(3)), Ok(()));
    assert_eq!(w.get_admin(), Some(user(3)));
    let m = w.get_metadata().unwrap();
    assert_eq!(
        m,
        WrapperMetadata {
            enforced: true,
            is_active: true,
            admin: user(3),
            asset: asset(),
            asset_controller: controller(),
        }
    );
    assert_eq!(w.set_admin(&vec![admin()], admin()), Err(Error::Unauthorized));
    assert_eq!(w.mint(&vec![admin()], user(1), 1), Err(Error::Unauthorized));
    let step = w.deactivate_wrapper(&vec![user(3)]);
    assert_eq!(step, Ok(Step::Call(Request::SetIssuer { asset: asset(), authority: user(3) })));
    assert_eq!(w.resume(Reply::Accepted), Ok(Step::Done));
    assert_eq!(w.set_admin(&vec![user(3)], admin()), Ok(()));
    assert_eq!(w.get_admin(), Some(admin()));
    assert_eq!(w.is_wrapper_active(), Ok(false));
}

#[test]
fn set_authorized_writes_one_flag() {
    let mut host = Host::new();
    let mut w = initialized(&mut host);
    assert_eq!(w.flags().get(&user(1)), None);
    assert_eq!(w.set_authorized(&vec![admin()], user(1), true), Ok(()));
    assert_eq!(w.flags().get(&user(1)), Some(true));
    assert!(w.is_authorized(&user(1)));
    assert_eq!(w.flags().get(&user(2)), None);
    assert_eq!(w.set_authorized(&vec![admin()], user(1), false), Ok(()));
    assert_eq!(w.flags().get(&user(1)), Some(false));
    assert!(!w.is_authorized(&user(1)));
    assert_eq!(w.set_authorized(&vec![admin()], user(2), false), Ok(()));
    assert_eq!(w.flags().get(&user(2)), Some(false));
    assert_eq!(w.flags().entries().len(), 2);
}

#[test]
fn resume_without_a_call_in_flight_is_done() {
    let mut host = Host::new();
    let mut w = initialized(&mut host);
    let before = snapshot(&w);
    assert_eq!(w.resume(Reply::Accepted), Ok(Step::Done));
    assert_eq!(w.resume(Reply::Rejected), Ok(Step::Done));
    assert_eq!(snapshot(&w), before);
}

#[test]
fn with_state_carries_a_wrapper_from_call_to_call() {
    let mut host = Host::new();
    let mut w = initialized(&mut host);
    assert_eq!(w.set_authorized(&vec![admin()], user(1), true), Ok(()));
    let mut flags = AccountFlags::new();
    for entry in w.flags().entries() {
        flags.set(entry.account, entry.authorized);
    }
    let next = WrapperInterface::with_state(w.contract(), w.metadata(), flags);
    assert_eq!(snapshot(&next), snapshot(&w));
    assert_eq!(next.contract(), wrapper_id());
    assert!(!next.in_flight());
}
