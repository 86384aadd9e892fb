//! Identifiers of ledger accounts.

use vstd::prelude::*;

verus! {

/// The 32-byte address of a ledger account.
#[derive(Clone, Copy, Debug)]
pub struct AccountKey(pub [u8; 32]);

impl AccountKey {
    /// Every byte of the address is zero.
    pub open spec fn is_zero(&self) -> bool {
        forall|i: int| 0 <= i < 32 ==> self.0[i] == 0
    }

    /// The address made of the given bytes.
    pub fn new_from_array(bytes: [u8; 32]) -> (key: Self)
        ensures
            key.0 == bytes,
    {
        AccountKey(bytes)
    }

    /// The bytes of the address.
    pub fn to_bytes(&self) -> (bytes: [u8; 32])
        ensures
            bytes == self.0,
    {
        self.0
    }

    /// Whether two addresses are the same, byte for byte.
    pub fn same_as(&self, other: &AccountKey) -> (same: bool)
        ensures
            same == (*self == *other),
    {
        let mut i: usize = 0;
        while i < 32
            invariant
                i <= 32,
                forall|j: int| 0 <= j < i ==> self.0[j] == other.0[j],
            decreases 32 - i,
        {
            if self.0[i] != other.0[i] {
                return false;
            }
            i += 1;
        }
        assert(self.0 =~= other.0);
        true
    }
}

impl Default for AccountKey {
    fn default() -> (key: Self)
        ensures
            key.is_zero(),
    {
        AccountKey([0u8; 32])
    }
}

impl PartialEq for AccountKey {
    fn eq(&self, other: &Self) -> (same: bool) {
        self.same_as(other)
    }
}

impl Eq for AccountKey {

}

impl vstd::std_specs::cmp::PartialEqSpecImpl for AccountKey {
    open spec fn obeys_eq_spec() -> bool {
        true
    }

    open spec fn eq_spec(&self, other: &Self) -> bool {
        *self == *other
    }
}

} // verus!
