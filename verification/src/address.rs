//! Identities of accounts and contracts.

use vstd::prelude::*;

verus! {

/// Number of characters in the text form of an address.
pub const ADDRESS_LEN: usize = 56;

/// The identity of an account or of a contract, held in its text form.
///
/// Two addresses name the same principal exactly when they are equal.
#[derive(Clone, Copy, Debug, PartialEq, Eq, Hash)]
pub struct Address {
    pub key: [u8; 56],
}

impl Address {
    /// The address with the given text form.
    pub fn new(key: [u8; 56]) -> (r: Address)
        ensures
            r.key == key,
    {
        Address { key }
    }

    /// Whether `self` and `other` name the same principal.
    pub fn same(&self, other: &Address) -> (r: bool)
        ensures
            r == (*self == *other),
    {
        let mut i: usize = 0;
        while i < ADDRESS_LEN
            invariant
                i <= ADDRESS_LEN,
                forall|j: int| 0 <= j < i ==> self.key[j] == other.key[j],
            decreases ADDRESS_LEN - i,
        {
            if self.key[i] != other.key[i] {
                return false;
            }
            i += 1;
        }
        assert(self.key =~= other.key);
        true
    }
}

} // verus!
