//! Per-account authorization flags, and the raising and restoring of flags
//! that brackets a delegated action.

use crate::address::Address;
use vstd::prelude::*;

verus! {

/// The flag stored for one account.
#[derive(Clone, Copy, Debug, PartialEq, Eq)]
pub struct FlagEntry {
    pub account: Address,
    pub authorized: bool,
}

/// The flag stored for `account`, if any.
pub open spec fn lookup(flags: Map<Address, bool>, account: Address) -> Option<bool> {
    if flags.dom().contains(account) {
        Some(flags[account])
    } else {
        None
    }
}

/// `flags` with every account of `accounts` marked as authorized.
pub open spec fn raised(flags: Map<Address, bool>, accounts: Seq<Address>) -> Map<Address, bool> {
    Map::new(
        |a: Address| flags.dom().contains(a) || accounts.contains(a),
        |a: Address| accounts.contains(a) || flags[a],
    )
}

/// `flags` with the flag of `account` set to `flag`, or with `account` made
/// absent where `flag` is `None`.
pub open spec fn assigned(flags: Map<Address, bool>, account: Address, flag: Option<bool>) -> Map<
    Address,
    bool,
> {
    match flag {
        Some(authorized) => flags.insert(account, authorized),
        None => flags.remove(account),
    }
}

/// `flags` after each account of `accounts` has been given the flag that
/// `prior` holds at the same position, in order.
pub open spec fn restored(
    flags: Map<Address, bool>,
    accounts: Seq<Address>,
    prior: Seq<Option<bool>>,
) -> Map<Address, bool>
    decreases accounts.len(),
{
    if accounts.len() == 0 || prior.len() != accounts.len() {
        flags
    } else {
        assigned(
            restored(flags, accounts.drop_last(), prior.drop_last()),
            accounts.last(),
            prior.last(),
        )
    }
}

/// Whether entry `i` of `entries` is the one for `account`.
pub open spec fn holds(entries: Seq<FlagEntry>, account: Address, i: int) -> bool {
    0 <= i < entries.len() && entries[i].account == account
}

/// Whether no account has two entries.
pub open spec fn distinct(entries: Seq<FlagEntry>) -> bool {
    forall|i: int, j: int|
        0 <= i < j < entries.len() ==> #[trigger] entries[i].account != #[trigger] entries[j].account
}

/// The mapping that a list of entries stands for.
pub open spec fn flags_of(entries: Seq<FlagEntry>) -> Map<Address, bool> {
    Map::new(
        |a: Address| exists|i: int| holds(entries, a, i),
        |a: Address| entries[choose|i: int| holds(entries, a, i)].authorized,
    )
}

/// In a list without repeated accounts, an account has a flag exactly if it
/// has an entry, and its entry decides the flag.
proof fn lemma_flags_of(entries: Seq<FlagEntry>)
    requires
        distinct(entries),
    ensures
        forall|a: Address, i: int| #[trigger]
            holds(entries, a, i) ==> flags_of(entries).dom().contains(a) && flags_of(entries)[a]
                == entries[i].authorized,
        forall|a: Address| #[trigger]
            flags_of(entries).dom().contains(a) ==> holds(
                entries,
                a,
                choose|i: int| holds(entries, a, i),
            ),
{
    assert forall|a: Address, i: int| #[trigger] holds(entries, a, i) implies flags_of(
        entries,
    ).dom().contains(a) && flags_of(entries)[a] == entries[i].authorized by {
        let k = choose|k: int| holds(entries, a, k);
        if k < i {
            assert(entries[k].account != entries[i].account);
        } else if i < k {
            assert(entries[i].account != entries[k].account);
        }
    }
}

/// The first `i + 1` accounts are the first `i` and the one at `i`.
proof fn lemma_take_contains(accounts: Seq<Address>, i: int, account: Address)
    requires
        0 <= i < accounts.len(),
    ensures
        accounts.take(i + 1).contains(account) == (accounts.take(i).contains(account)
            || accounts[i] == account),
{
    let shorter = accounts.take(i);
    let longer = accounts.take(i + 1);
    if longer.contains(account) {
        let k = choose|k: int| 0 <= k < longer.len() && longer[k] == account;
        if k < i {
            assert(shorter[k] == account);
        }
    }
    if shorter.contains(account) {
        let k = choose|k: int| 0 <= k < shorter.len() && shorter[k] == account;
        assert(longer[k] == account);
    }
    if accounts[i] == account {
        assert(longer[i] == account);
    }
}

/// Restoring the first `i` accounts of a raised mapping gives each of them
/// its flag of before the raise and leaves the others raised.
proof fn lemma_restore_prefix(
    base: Map<Address, bool>,
    accounts: Seq<Address>,
    prior: Seq<Option<bool>>,
    i: int,
)
    requires
        prior.len() == accounts.len(),
        0 <= i <= accounts.len(),
        forall|k: int| 0 <= k < accounts.len() ==> prior[k] == lookup(base, accounts[k]),
    ensures
        forall|a: Address|
            #[trigger] lookup(
                restored(raised(base, accounts), accounts.take(i), prior.take(i)),
                a,
            ) == if accounts.take(i).contains(a) {
                lookup(base, a)
            } else {
                lookup(raised(base, accounts), a)
            },
    decreases i,
{
    let top = raised(base, accounts);
    if i == 0 {
        assert(accounts.take(0).len() == 0);
        assert forall|a: Address| !accounts.take(0).contains(a) by {}
    } else {
        lemma_restore_prefix(base, accounts, prior, i - 1);
        let before = restored(top, accounts.take(i - 1), prior.take(i - 1));
        let after = restored(top, accounts.take(i), prior.take(i));
        assert(accounts.take(i).drop_last() == accounts.take(i - 1));
        assert(prior.take(i).drop_last() == prior.take(i - 1));
        assert(accounts.take(i).last() == accounts[i - 1]);
        assert(prior.take(i).last() == prior[i - 1]);
        assert(after == assigned(before, accounts[i - 1], prior[i - 1]));
        assert forall|a: Address|
            lookup(after, a) == if accounts.take(i).contains(a) {
                lookup(base, a)
            } else {
                lookup(top, a)
            } by {
            lemma_take_contains(accounts, i - 1, a);
            assert(lookup(before, a) == if accounts.take(i - 1).contains(a) {
                lookup(base, a)
            } else {
                lookup(top, a)
            });
        }
    }
}

/// Raising the flags of `accounts` and then giving each account the flag it
/// had before brings back the mapping of before, whatever the accounts are
/// and however often one of them occurs.
pub proof fn lemma_raise_then_restore(
    base: Map<Address, bool>,
    accounts: Seq<Address>,
    prior: Seq<Option<bool>>,
)
    requires
        prior.len() == accounts.len(),
        forall|k: int| 0 <= k < accounts.len() ==> prior[k] == lookup(base, accounts[k]),
    ensures
        restored(raised(base, accounts), accounts, prior) == base,
{
    lemma_restore_prefix(base, accounts, prior, accounts.len() as int);
    assert(accounts.take(accounts.len() as int) == accounts);
    assert(prior.take(prior.len() as int) == prior);
    let end = restored(raised(base, accounts), accounts, prior);
    assert forall|a: Address| lookup(end, a) == lookup(base, a) by {}
    assert forall|a: Address| end.dom().contains(a) == base.dom().contains(a) by {
        assert(lookup(end, a) == lookup(base, a));
    }
    assert forall|a: Address| end.dom().contains(a) implies end[a] == base[a] by {
        assert(lookup(end, a) == lookup(base, a));
    }
    assert(end =~= base);
}

/// Raising the flag of one account sets that flag and no other.
pub proof fn lemma_raised_one(flags: Map<Address, bool>, account: Address)
    ensures
        raised(flags, seq![account]) == flags.insert(account, true),
{
    let one = seq![account];
    assert forall|a: Address| one.contains(a) == (a == account) by {
        if a == account {
            assert(one[0] == a);
        }
    }
    assert(raised(flags, one) =~= flags.insert(account, true));
}

/// The account authorization flags: a mapping from accounts to booleans in
/// which an account may be absent.
#[derive(Debug)]
pub struct AccountFlags {
    entries: Vec<FlagEntry>,
}

impl View for AccountFlags {
    type V = Map<Address, bool>;

    closed spec fn view(&self) -> Map<Address, bool> {
        flags_of(self.entries@)
    }
}

impl AccountFlags {
    /// No account is listed twice.
    pub closed spec fn wf(&self) -> bool {
        distinct(self.entries@)
    }

    /// The mapping in which every account is absent.
    pub fn new() -> (r: AccountFlags)
        ensures
            r.wf(),
            r@ == Map::<Address, bool>::empty(),
    {
        let r = AccountFlags { entries: Vec::new() };
        proof {
            lemma_flags_of(r.entries@);
            assert(r@ =~= Map::<Address, bool>::empty());
        }
        r
    }

    fn find(&self, account: &Address) -> (r: Option<usize>)
        ensures
            match r {
                Some(i) => holds(self.entries@, *account, i as int),
                None => forall|i: int| !holds(self.entries@, *account, i),
            },
    {
        let mut i: usize = 0;
        while i < self.entries.len()
            invariant
                i <= self.entries@.len(),
                forall|j: int| 0 <= j < i ==> !holds(self.entries@, *account, j),
            decreases self.entries@.len() - i,
        {
            if self.entries[i].account.same(account) {
                return Some(i);
            }
            i += 1;
        }
        None
    }

    /// The flag stored for `account`, if any.
    pub fn get(&self, account: &Address) -> (r: Option<bool>)
        requires
            self.wf(),
        ensures
            r == lookup(self@, *account),
    {
        proof {
            lemma_flags_of(self.entries@);
        }
        match self.find(account) {
            Some(i) => Some(self.entries[i].authorized),
            None => None,
        }
    }

    /// Whether `account` is marked as authorized. An absent account is not.
    pub fn is_authorized(&self, account: &Address) -> (r: bool)
        requires
            self.wf(),
        ensures
            r == (lookup(self@, *account) == Some(true)),
    {
        match self.get(account) {
            Some(flag) => flag,
            None => false,
        }
    }

    /// Stores `authorized` as the flag of `account`.
    pub fn set(&mut self, account: Address, authorized: bool)
        requires
            old(self).wf(),
        ensures
            final(self).wf(),
            final(self)@ == old(self)@.insert(account, authorized),
    {
        let ghost before = self.entries@;
        let entry = FlagEntry { account, authorized };
        match self.find(&account) {
            Some(i) => {
                self.entries[i] = entry;
                proof {
                    let after = self.entries@;
                    assert forall|b: Address, k: int| holds(after, b, k) == holds(before, b, k) by {}
                    lemma_flags_of(before);
                    lemma_flags_of(after);
                    assert(holds(after, account, i as int));
                    assert(flags_of(after) =~= flags_of(before).insert(account, authorized));
                }
            },
            None => {
                self.entries.push(entry);
                proof {
                    let after = self.entries@;
                    assert forall|b: Address, k: int| holds(after, b, k) == (holds(before, b, k)
                        || (k == before.len() && b == account)) by {}
                    assert(distinct(after)) by {
                        assert forall|p: int, q: int| 0 <= p < q < after.len() implies after[p].account
                            != after[q].account by {
                            assert(!holds(before, account, p));
                        }
                    }
                    lemma_flags_of(before);
                    lemma_flags_of(after);
                    assert(holds(after, account, before.len() as int));
                    assert(flags_of(after) =~= flags_of(before).insert(account, authorized));
                }
            },
        }
    }

    /// Makes `account` absent.
    pub fn remove(&mut self, account: &Address)
        requires
            old(self).wf(),
        ensures
            final(self).wf(),
            final(self)@ == old(self)@.remove(*account),
    {
        let ghost before = self.entries@;
        proof {
            lemma_flags_of(before);
        }
        match self.find(account) {
            Some(i) => {
                self.entries.remove(i);
                proof {
                    let after = self.entries@;
                    let at = i as int;
                    assert forall|b: Address, k: int| holds(after, b, k) == (if k < at {
                        holds(before, b, k)
                    } else {
                        holds(before, b, k + 1)
                    }) by {}
                    assert forall|b: Address, k: int| holds(before, b, k) && k != at implies holds(
                        after,
                        b,
                        if k < at {
                            k
                        } else {
                            k - 1
                        },
                    ) by {}
                    assert(distinct(after)) by {
                        assert forall|p: int, q: int| 0 <= p < q < after.len() implies after[p].account
                            != after[q].account by {
                            assert(holds(after, after[p].account, p));
                            assert(holds(after, after[q].account, q));
                        }
                    }
                    lemma_flags_of(after);
                    assert(flags_of(after) =~= flags_of(before).remove(*account));
                }
            },
            None => {
                assert(flags_of(before) =~= flags_of(before).remove(*account));
            },
        }
    }

    /// Gives `account` the flag `flag`, or makes it absent where `flag` is
    /// `None`.
    pub fn assign(&mut self, account: Address, flag: Option<bool>)
        requires
            old(self).wf(),
        ensures
            final(self).wf(),
            final(self)@ == assigned(old(self)@, account, flag),
    {
        match flag {
            Some(authorized) => self.set(account, authorized),
            None => self.remove(&account),
        }
    }

    /// Marks every account of `accounts` as authorized and returns the flag
    /// that each had before the first of them was marked.
    pub fn raise_all(&mut self, accounts: &Vec<Address>) -> (prior: Vec<Option<bool>>)
        requires
            old(self).wf(),
        ensures
            final(self).wf(),
            final(self)@ == raised(old(self)@, accounts@),
            prior@.len() == accounts@.len(),
            forall|i: int|
                0 <= i < accounts@.len() ==> prior@[i] == lookup(old(self)@, accounts@[i]),
    {
        let mut prior: Vec<Option<bool>> = Vec::new();
        let mut i: usize = 0;
        while i < accounts.len()
            invariant
                self.wf(),
                i <= accounts@.len(),
                prior@.len() == i,
                forall|k: int| 0 <= k < i ==> prior@[k] == lookup(self@, accounts@[k]),
            decreases accounts@.len() - i,
        {
            prior.push(self.get(&accounts[i]));
            i += 1;
        }
        let ghost base = self@;
        let mut j: usize = 0;
        assert(self@ =~= raised(base, accounts@.take(0))) by {
            assert forall|a: Address| !accounts@.take(0).contains(a) by {}
        }
        while j < accounts.len()
            invariant
                self.wf(),
                j <= accounts@.len(),
                self@ == raised(base, accounts@.take(j as int)),
            decreases accounts@.len() - j,
        {
            let ghost before = self@;
            self.set(accounts[j], true);
            proof {
                let next = raised(base, accounts@.take(j + 1));
                let now = before.insert(accounts@[j as int], true);
                assert forall|a: Address| now.dom().contains(a) == next.dom().contains(a) by {
                    lemma_take_contains(accounts@, j as int, a);
                }
                assert forall|a: Address| now.dom().contains(a) implies now[a] == next[a] by {
                    lemma_take_contains(accounts@, j as int, a);
                }
                assert(now =~= next);
            }
            j += 1;
        }
        assert(accounts@.take(accounts@.len() as int) == accounts@);
        prior
    }

    /// Gives each account of `accounts` the flag that `prior` holds at the
    /// same position, in order.
    pub fn restore_all(&mut self, accounts: &Vec<Address>, prior: &Vec<Option<bool>>)
        requires
            old(self).wf(),
            accounts@.len() == prior@.len(),
        ensures
            final(self).wf(),
            final(self)@ == restored(old(self)@, accounts@, prior@),
    {
        let ghost base = self@;
        let mut i: usize = 0;
        while i < accounts.len()
            invariant
                self.wf(),
                i <= accounts@.len(),
                accounts@.len() == prior@.len(),
                self@ == restored(base, accounts@.take(i as int), prior@.take(i as int)),
            decreases accounts@.len() - i,
        {
            self.assign(accounts[i], prior[i]);
            proof {
                assert(accounts@.take(i + 1).drop_last() == accounts@.take(i as int));
                assert(prior@.take(i + 1).drop_last() == prior@.take(i as int));
            }
            i += 1;
        }
        assert(accounts@.take(accounts@.len() as int) == accounts@);
        assert(prior@.take(prior@.len() as int) == prior@);
    }

    /// One entry for each account that has a flag.
    pub fn entries(&self) -> (r: Vec<FlagEntry>)
        requires
            self.wf(),
        ensures
            distinct(r@),
            flags_of(r@) == self@,
    {
        let mut r: Vec<FlagEntry> = Vec::new();
        let mut i: usize = 0;
        while i < self.entries.len()
            invariant
                i <= self.entries@.len(),
                r@ == self.entries@.take(i as int),
            decreases self.entries@.len() - i,
        {
            r.push(self.entries[i]);
            assert(self.entries@.take(i + 1) == self.entries@.take(i as int).push(
                self.entries@[i as int],
            ));
            i += 1;
        }
        assert(self.entries@.take(self.entries@.len() as int) == self.entries@);
        r
    }
}

} // verus!
