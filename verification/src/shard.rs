//! One partition of the key space: a map from keys to values.

use crate::value::bytes_contents;
use bytes::Bytes;
use vstd::hash_map::StringHashMap;
use vstd::prelude::*;

verus! {

/// One partition of the key space. It is viewed as the map from each key it
/// holds to the bytes stored under that key.
pub struct Shard {
    entries: StringHashMap<Bytes>,
}

impl View for Shard {
    type V = Map<Seq<char>, Seq<u8>>;

    closed spec fn view(&self) -> Map<Seq<char>, Seq<u8>> {
        self.entries@.map_values(|value: Bytes| bytes_contents(value))
    }
}

impl Shard {
    /// A shard that holds no key.
    pub fn new() -> (shard: Shard)
        ensures
            shard@ == Map::<Seq<char>, Seq<u8>>::empty(),
    {
        let shard = Shard { entries: StringHashMap::new() };
        assert(shard@ =~= Map::<Seq<char>, Seq<u8>>::empty());
        shard
    }

    /// Stores `value` under `key`, replacing whatever was stored there.
    pub fn set(&mut self, key: String, value: Bytes)
        ensures
            final(self)@ == old(self)@.insert(key@, bytes_contents(value)),
    {
        self.entries.insert(key, value);
        assert(self@ =~= old(self)@.insert(key@, bytes_contents(value)));
    }

    /// Looks `key` up and hands out a handle of its own to the value found.
    pub fn get(&self, key: &str) -> (found: Option<Bytes>)
        ensures
            match found {
                Some(value) => self@.contains_key(key@) && bytes_contents(value) == self@[key@],
                None => !self@.contains_key(key@),
            },
    {
        match self.entries.get(key) {
            Some(value) => Some(value.clone()),
            None => None,
        }
    }
}

} // verus!
