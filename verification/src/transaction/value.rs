//! What transactions read and write.
use vstd::prelude::*;
use crate::snapshot::SnapshotId;

verus! {

/// The position of a value in the trie, one nibble per item.
pub type RawPath = Vec<u8>;

/// The path of an account.
#[derive(PartialEq, Eq, Hash, Debug)]
pub struct AddressPath {
    pub raw: RawPath,
}

/// The path of a storage slot.
#[derive(PartialEq, Eq, Hash, Debug)]
pub struct StoragePath {
    pub raw: RawPath,
}

impl Clone for AddressPath {
    fn clone(&self) -> (copy: Self)
        ensures
            copy.raw@ == self.raw@,
    {
        AddressPath { raw: self.raw.clone() }
    }
}

impl Clone for StoragePath {
    fn clone(&self) -> (copy: Self)
        ensures
            copy.raw@ == self.raw@,
    {
        StoragePath { raw: self.raw.clone() }
    }
}

/// An account. The 32-byte numbers are big-endian.
#[derive(Copy, Clone, PartialEq, Eq, Debug)]
pub struct Account {
    pub nonce: u64,
    pub balance: [u8; 32],
    pub storage_root: [u8; 32],
    pub code_hash: [u8; 32],
}

/// The value of a storage slot, as a big-endian number.
pub type StorageValue = [u8; 32];

/// A value that the trie holds.
#[derive(Copy, Clone, PartialEq, Eq, Debug)]
pub enum TrieValue {
    Account(Account),
    Storage(StorageValue),
}

/// A change of the trie: the value at the path is replaced, or removed if there is none.
pub type Change = (RawPath, Option<TrieValue>);

/// The state of the database on which a transaction works.
#[derive(Copy, Clone, PartialEq, Eq, Debug)]
pub struct TransactionContext {
    pub snapshot_id: SnapshotId,
    pub root_node_hash: [u8; 32],
}

} // verus!
