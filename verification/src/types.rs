//! Identifiers and units shared by the ledger and the governance engine.

use vstd::prelude::*;

verus! {

/// An amount of tokens.
pub type Balance = u128;

/// A point in time, in the units of the clock that the callers read.
pub type Timestamp = u64;

/// One whole, for parts given in units of 10^-12.
pub const E12: u128 = 1_000_000_000_000;

/// A type whose values can be told apart at run time, so that it can key a
/// [`crate::table::Table`].
pub trait Key: Sized {
    /// Whether two keys are the same key.
    fn same(&self, other: &Self) -> (b: bool)
        ensures
            b == (self == other),
    ;
}

/// The address of an account: 32 bytes.
#[derive(Clone, Copy, Debug, PartialEq, Eq, Hash)]
pub struct AccountId(pub [u8; 32]);

impl AccountId {
    /// Whether every byte of the address is 0.
    pub open spec fn is_zero(&self) -> bool {
        forall|i: int| 0 <= i < 32 ==> self.0[i] == 0
    }

    /// The address whose bytes are all 0.
    pub fn zero() -> (account: AccountId)
        ensures
            account.is_zero(),
    {
        AccountId([0u8; 32])
    }
}

/// A digest of 32 bytes.
#[derive(Clone, Copy, Debug, PartialEq, Eq, Hash)]
pub struct Hash(pub [u8; 32]);

/// Whether two arrays of 32 bytes hold the same bytes.
pub fn bytes32_equal(a: &[u8; 32], b: &[u8; 32]) -> (r: bool)
    ensures
        r == (a == b),
{
    let mut i: usize = 0;
    while i < 32
        invariant
            i <= 32,
            forall|j: int| 0 <= j < i ==> a[j] == b[j],
        decreases 32 - i,
    {
        if a[i] != b[i] {
            return false;
        }
        i += 1;
    }
    assert(a =~= b);
    true
}

impl Key for AccountId {
    fn same(&self, other: &Self) -> (b: bool) {
        bytes32_equal(&self.0, &other.0)
    }
}

impl Key for Hash {
    fn same(&self, other: &Self) -> (b: bool) {
        bytes32_equal(&self.0, &other.0)
    }
}

impl Key for u64 {
    fn same(&self, other: &Self) -> (b: bool) {
        *self == *other
    }
}

impl<A: Key, B: Key> Key for (A, B) {
    fn same(&self, other: &Self) -> (b: bool) {
        self.0.same(&other.0) && self.1.same(&other.1)
    }
}

} // verus!
