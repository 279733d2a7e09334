//! The store: a fixed row of shards, each behind a lock of its own.

use crate::hashing::{shard_index, shard_of};
use crate::shard::Shard;
use bytes::Bytes;
use vstd::prelude::*;
use vstd::rwlock::{RwLock, RwLockPredicate};

verus! {

/// What the lock of one shard admits: a shard may hold only keys that the
/// hash places in it.
pub struct Placement {
    pub index: int,
    pub shard_count: int,
}

impl RwLockPredicate<Shard> for Placement {
    open spec fn inv(self, shard: Shard) -> bool {
        forall|key: Seq<char>| #[trigger]
            shard@.contains_key(key) ==> shard_of(key, self.shard_count) == self.index
    }
}

/// A key-value store split into independently locked shards. The number of
/// shards is fixed when the store is made, and each key belongs to the shard
/// that `shard_of` names, for as long as the store lives.
pub struct ShardedStore {
    shards: Vec<RwLock<Shard, Placement>>,
}

impl ShardedStore {
    #[verifier::type_invariant]
    spec fn well_formed(self) -> bool {
        &&& self.shards.len() >= 1
        &&& forall|i: int|
            0 <= i < self.shards.len() ==> (#[trigger] self.shards[i]).pred() == (Placement {
                index: i,
                shard_count: self.shards.len() as int,
            })
    }

    /// The number of shards.
    pub closed spec fn spec_shard_count(&self) -> usize {
        self.shards.len()
    }

    /// The number of shards, at least one.
    #[verifier::when_used_as_spec(spec_shard_count)]
    pub fn shard_count(&self) -> (count: usize)
        ensures
            count == self.spec_shard_count(),
            count >= 1,
    {
        proof {
            use_type_invariant(self);
        }
        self.shards.len()
    }

    /// The index of the shard that owns `key`: the hash of the key, modulo the
    /// number of shards. It depends on nothing but the key and that number.
    pub fn owner_of(&self, key: &str) -> (index: usize)
        ensures
            index == shard_of(key@, self.shard_count() as int),
            index < self.shard_count(),
    {
        proof {
            use_type_invariant(self);
        }
        shard_index(key, self.shards.len())
    }

    /// Stores `value` under `key`: takes the write lock of the shard that owns
    /// the key, writes the entry and gives the lock back. No other lock is
    /// taken, and none is held when this returns. What the shard holds
    /// afterwards is what `Shard::set` makes of what it held when the lock was
    /// taken; other holders of the store may have written in between, so no
    /// clause here speaks of earlier or later contents.
    pub fn set(&self, key: String, value: Bytes) {
        proof {
            use_type_invariant(self);
        }
        let index = self.owner_of(key.as_str());
        let (mut shard, handle) = self.shards[index].acquire_write();
        shard.set(key, value);
        handle.release_write(shard);
    }

    /// Reads the value under `key`: takes a read lock of the shard that owns
    /// the key, copies the handle of the value found and gives the lock back.
    /// The result is what `Shard::get` finds in what the shard held when the
    /// lock was taken.
    pub fn get(&self, key: &str) -> (found: Option<Bytes>) {
        proof {
            use_type_invariant(self);
        }
        let index = self.owner_of(key);
        let handle = self.shards[index].acquire_read();
        // The lock read is the one of the key's owner; no other shard can hold the key.
        assert(handle.rwlock().pred().index == shard_of(key@, self.shard_count() as int));
        let found = handle.borrow().get(key);
        handle.release_read();
        found
    }
}

/// Makes a store of `num_shards` empty shards.
pub fn new_sharded_db(num_shards: usize) -> (db: ShardedStore)
    requires
        num_shards >= 1,
    ensures
        db.shard_count() == num_shards,
{
    let mut shards: Vec<RwLock<Shard, Placement>> = Vec::new();
    let mut i: usize = 0;
    while i < num_shards
        invariant
            i <= num_shards,
            shards.len() == i,
            forall|j: int|
                0 <= j < i ==> (#[trigger] shards[j]).pred() == (Placement {
                    index: j,
                    shard_count: num_shards as int,
                }),
        decreases num_shards - i,
    {
        let ghost placement = Placement { index: i as int, shard_count: num_shards as int };
        shards.push(RwLock::new(Shard::new(), Ghost(placement)));
        i += 1;
    }
    ShardedStore { shards }
}

} // verus!
