//! Per-contract key/value storage with staged writes.
//!
//! The store is an append-only journal of `(owner, key, value)` entries;
//! a read scans from the most recent entry, so the last write wins.  A frame
//! records the journal length on entry and truncates back to it when the
//! frame aborts: the writes of the aborting frame and of all its descendants
//! are discarded together, while writes of successful sub-chains survive
//! until an enclosing frame aborts or the whole chain succeeds.

use vstd::prelude::*;
use crate::types::Address;
use crate::bytestr::{bytes_eq, copy_bytes};

verus! {

/// One durable write: `(owner, key) -> value`.
pub struct StorageEntry {
    pub owner: Address,
    pub key: Vec<u8>,
    pub value: Vec<u8>,
}

/// The value most recently written under `(owner, key)`, or `None`.
pub open spec fn lookup(j: Seq<StorageEntry>, owner: Seq<u8>, key: Seq<u8>) -> Option<Seq<u8>>
    decreases j.len(),
{
    if j.len() == 0 {
        None
    } else if j.last().owner@ == owner && j.last().key@ == key {
        Some(j.last().value@)
    } else {
        lookup(j.drop_last(), owner, key)
    }
}

/// The key/value region backing contract storage, scoped per contract
/// address.
pub struct ContractStorage {
    pub journal: Vec<StorageEntry>,
}

impl View for ContractStorage {
    type V = Seq<StorageEntry>;

    open spec fn view(&self) -> Seq<StorageEntry> {
        self.journal@
    }
}

impl ContractStorage {
    /// An empty store.
    pub fn new() -> (r: ContractStorage)
        ensures
            r@.len() == 0,
    {
        ContractStorage { journal: Vec::new() }
    }

    /// Reads the value under `(owner, key)`.
    pub fn get(&self, owner: &Address, key: &Vec<u8>) -> (r: Option<Vec<u8>>)
        ensures
            match lookup(self@, owner@, key@) {
                Some(v) => r is Some && r->Some_0@ == v,
                None => r is None,
            },
    {
        let mut i: usize = self.journal.len();
        proof {
            assert(self@.subrange(0, i as int) =~= self@);
        }
        while i > 0
            invariant
                i <= self@.len(),
                lookup(self@, owner@, key@) == lookup(self@.subrange(0, i as int), owner@, key@),
            decreases i,
        {
            i = i - 1;
            let e = &self.journal[i];
            let hit = if bytes_eq(&e.owner.bytes, &owner.bytes) {
                bytes_eq(&e.key, key)
            } else {
                false
            };
            proof {
                assert(self@.subrange(0, i + 1 as int).last() == self@[i as int]);
                assert(self@.subrange(0, i + 1 as int).drop_last() =~= self@.subrange(
                    0,
                    i as int,
                ));
            }
            if hit {
                return Some(copy_bytes(&e.value));
            }
        }
        proof {
            assert(self@.subrange(0, 0) =~= Seq::<StorageEntry>::empty());
        }
        None
    }

    /// Writes `value` under `(owner, key)`.  No other pair's reading
    /// changes: storage written under one contract is never visible when
    /// reading another contract's region.
    pub fn set(&mut self, owner: &Address, key: Vec<u8>, value: Vec<u8>)
        ensures
            final(self)@.len() == old(self)@.len() + 1,
            final(self)@.drop_last() == old(self)@,
            lookup(final(self)@, owner@, key@) == Some(value@),
            forall|a: Seq<u8>, k: Seq<u8>|
                !(a == owner@ && k == key@) ==> lookup(final(self)@, a, k) == lookup(
                    old(self)@,
                    a,
                    k,
                ),
    {
        let entry = StorageEntry { owner: owner.clone(), key, value };
        self.journal.push(entry);
        proof {
            assert(final(self)@.drop_last() =~= old(self)@);
        }
    }

    /// The current journal length; a frame records it on entry.
    pub fn mark(&self) -> (r: usize)
        ensures
            r == self@.len(),
    {
        self.journal.len()
    }

    /// Discards every write made after `mark`: the staged changes of an
    /// aborting frame and its descendants.
    pub fn discard_to(&mut self, mark: usize)
        requires
            mark <= old(self)@.len(),
        ensures
            final(self)@ == old(self)@.subrange(0, mark as int),
    {
        self.journal.truncate(mark);
    }
}

/// Storage written under contract `A` is never visible when reading storage
/// scoped to a different contract `B`: a write whose owner is not `b`
/// leaves every lookup under `b` unchanged.
pub proof fn lemma_storage_isolation(j: Seq<StorageEntry>, e: StorageEntry, b: Seq<u8>, k: Seq<u8>)
    requires
        e.owner@ != b,
    ensures
        lookup(j.push(e), b, k) == lookup(j, b, k),
{
    assert(j.push(e).drop_last() =~= j);
}

} // verus!
