//! Plain values shared by every part of the executive.

use vstd::prelude::*;

verus! {

/// Currency amount. Arithmetic on balances saturates.
pub type Balance = u128;

/// Gas unit.
pub type Weight = u64;

/// Height of a block.
pub type BlockNumber = u64;

/// Timestamp of a block.
pub type Moment = u64;

/// Key of one cell of a contract's storage.
pub type StorageKey = [u8; 32];

/// Whether two 32-byte strings hold the same bytes.
pub fn bytes_equal(a: &[u8; 32], b: &[u8; 32]) -> (same: bool)
    ensures
        same == (*a == *b),
{
    let mut i: usize = 0;
    while i < 32
        invariant
            i <= 32,
            forall|j: int| 0 <= j < i ==> a@[j] == b@[j],
        decreases 32 - i,
    {
        if a[i] != b[i] {
            return false;
        }
        i = i + 1;
    }
    assert(a@ =~= b@);
    assert(*a =~= *b);
    true
}

/// Identity of a participant of the chain: a plain account or a contract.
#[derive(Clone, Copy, Debug, Eq, Hash)]
pub struct AccountId {
    pub bytes: [u8; 32],
}

impl AccountId {
    pub fn new(bytes: [u8; 32]) -> (id: AccountId)
        ensures
            id.bytes == bytes,
    {
        AccountId { bytes }
    }
}

impl PartialEq for AccountId {
    fn eq(&self, other: &Self) -> (same: bool) {
        bytes_equal(&self.bytes, &other.bytes)
    }
}

impl vstd::std_specs::cmp::PartialEqSpecImpl for AccountId {
    open spec fn obeys_eq_spec() -> bool {
        true
    }

    open spec fn eq_spec(&self, other: &Self) -> bool {
        *self == *other
    }
}

/// A 32-byte digest.
#[derive(Clone, Copy, Debug, PartialEq, Eq, Hash)]
pub struct Digest {
    pub bytes: [u8; 32],
}

impl Digest {
    pub fn new(bytes: [u8; 32]) -> (digest: Digest)
        ensures
            digest.bytes == bytes,
    {
        Digest { bytes }
    }
}

/// Content hash of a code blob.
pub type CodeHash = Digest;

/// Topic under which an event is indexed.
pub type Topic = Digest;

/// Random seed.
pub type Seed = Digest;

/// Namespace of one contract in the storage backend.
#[derive(Clone, Copy, Debug, PartialEq, Eq, Hash)]
pub struct TrieId {
    pub bytes: [u8; 32],
}

impl TrieId {
    pub fn new(bytes: [u8; 32]) -> (id: TrieId)
        ensures
            id.bytes == bytes,
    {
        TrieId { bytes }
    }
}

/// What a currency transfer may do to the account it takes from.
#[derive(Clone, Copy, Debug, PartialEq, Eq, Structural)]
pub enum ExistenceRequirement {
    /// The sender must still exist after the transfer.
    KeepAlive,
    /// The transfer may empty and thereby remove the sender.
    AllowDeath,
}

/// A share of a whole, in parts per billion.
#[derive(Clone, Copy, Debug, PartialEq, Eq, Structural)]
pub struct Perbill {
    pub parts: u32,
}

} // verus!
