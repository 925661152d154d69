//! The transient in-memory backend: a hash map from decoded keys to
//! 8-byte encoded values. Fully verified; it performs no I/O, so its
//! operations never fail with `Io`.

use vstd::prelude::*;
use vstd::map::*;
use std::collections::HashMap;
use crate::backend::Backend;
use crate::codec::{be_bytes, u64_of_be, lemma_be_round_trip, lemma_be_bytes_of_u64_of_be,
    encode_u64, decode_u64};
use crate::error::StoreError;

verus! {

broadcast use vstd::std_specs::hash::group_hash_axioms;

/// The encoded view of the hash map: each stored pair `(k, v)` appears as
/// the pair of `k`'s 8-byte encoding and `v`'s bytes.
spec fn mem_contents(m: Map<u64, Vec<u8>>) -> Map<Seq<u8>, Seq<u8>> {
    Map::new(
        |k: Seq<u8>| k.len() == 8 && m.contains_key(u64_of_be(k)),
        |k: Seq<u8>| m[u64_of_be(k)]@,
    )
}

/// Inserting into the hash map inserts the encoded pair into the view.
proof fn lemma_mem_contents_insert(m: Map<u64, Vec<u8>>, key: u64, bytes: Vec<u8>)
    ensures
        mem_contents(m.insert(key, bytes)) == mem_contents(m).insert(be_bytes(key), bytes@),
{
    let lhs = mem_contents(m.insert(key, bytes));
    let rhs = mem_contents(m).insert(be_bytes(key), bytes@);
    lemma_be_round_trip(key);
    assert_maps_equal!(lhs, rhs, k => {
        if k.len() == 8 && u64_of_be(k) == key {
            lemma_be_bytes_of_u64_of_be(k);
        }
    });
}

/// The in-memory backend.
pub struct InMemoryBackend {
    map: HashMap<u64, Vec<u8>>,
}

impl InMemoryBackend {
    /// A fresh, empty in-memory store.
    pub fn new() -> (r: InMemoryBackend)
        ensures
            r.contents() == Map::<Seq<u8>, Seq<u8>>::empty(),
            r.io_free(),
    {
        let r = InMemoryBackend { map: HashMap::new() };
        proof {
            assert(mem_contents(r.map@) =~= Map::<Seq<u8>, Seq<u8>>::empty());
        }
        r
    }

    /// Record raw `bytes` under `key`'s encoding, whatever their length.
    /// (`put` stores through here; a value of a length other than 8 makes
    /// a later `get` of the key report `DecodeError`.)
    pub fn put_raw(&mut self, key: u64, bytes: Vec<u8>) -> (r: Result<(), StoreError>)
        ensures
            r is Ok,
            final(self).io_free() == old(self).io_free(),
            final(self).contents() == old(self).contents().insert(be_bytes(key), bytes@),
    {
        let ghost m0 = self.map@;
        let ghost b = bytes;
        self.map.insert(key, bytes);
        proof {
            lemma_mem_contents_insert(m0, key, b);
        }
        Ok(())
    }
}

impl Backend for InMemoryBackend {
    closed spec fn contents(&self) -> Map<Seq<u8>, Seq<u8>> {
        mem_contents(self.map@)
    }

    closed spec fn io_free(&self) -> bool {
        true
    }

    fn put(&mut self, key: u64, value: u64) -> (r: Result<(), StoreError>) {
        let encoded = encode_u64(value);
        self.put_raw(key, encoded)
    }

    fn get(&self, key: u64) -> (r: Result<u64, StoreError>)
        ensures
            r != Err::<u64, StoreError>(StoreError::Io),
    {
        proof {
            lemma_be_round_trip(key);
        }
        match self.map.get(&key) {
            None => Err(StoreError::NotFound),
            Some(bytes) => decode_u64(bytes),
        }
    }
}

}
