//! Placement of keys: the hash of a key and the shard that owns it.

use std::collections::hash_map::DefaultHasher;
use std::hash::Hasher;
use vstd::prelude::*;
use vstd::std_specs::hash::DefaultHasherAdditionalSpecFns;
use vstd::string::StringSliceAdditionalSpecFns;

verus! {

/// The hash of a key: what a freshly made `DefaultHasher` yields after the
/// key's UTF-8 bytes were written to it in one piece.
pub open spec fn spec_key_hash(key: Seq<char>) -> u64 {
    DefaultHasher::spec_finish(seq![vstd::utf8::encode_utf8(key)])
}

/// The index of the shard that owns `key` in a store of `shard_count` shards.
pub open spec fn shard_of(key: Seq<char>, shard_count: int) -> int {
    spec_key_hash(key) as int % shard_count
}

/// Hashes a key. Equal keys hash alike, on every call.
pub fn key_hash(key: &str) -> (hash: u64)
    ensures
        hash == spec_key_hash(key@),
{
    let mut hasher = DefaultHasher::new();
    hasher.write(key.as_bytes());
    let hash: u64 = hasher.finish();
    proof {
        assert(hasher@ =~= seq![key.spec_bytes()]);
    }
    hash
}

/// Picks the shard of `key` among `shard_count` shards.
pub fn shard_index(key: &str, shard_count: usize) -> (index: usize)
    requires
        shard_count >= 1,
    ensures
        index == shard_of(key@, shard_count as int),
        index < shard_count,
{
    let hash: u64 = key_hash(key);
    let index: u64 = hash % (shard_count as u64);
    index as usize
}

} // verus!
