//! The uniform backend interface: a key-value store holding 8-byte
//! big-endian encoded keys and values, exposing `put` and `get`.

use vstd::prelude::*;
use crate::codec::{be_bytes, u64_of_be, lemma_be_round_trip};
use crate::error::StoreError;

verus! {

/// What `get(key)` owes on a store whose contents are `c`: the decoded
/// value if the encoded key holds an 8-byte value, `NotFound` if the key
/// was never written, `DecodeError` if the stored value is not 8 bytes.
pub open spec fn lookup(c: Map<Seq<u8>, Seq<u8>>, key: u64) -> Result<u64, StoreError> {
    if !c.contains_key(be_bytes(key)) {
        Err(StoreError::NotFound)
    } else if c[be_bytes(key)].len() == 8 {
        Ok(u64_of_be(c[be_bytes(key)]))
    } else {
        Err(StoreError::DecodeError)
    }
}

/// A concrete key-value store the harness can drive. Its abstract state is
/// the map of encoded keys to encoded values it currently holds.
pub trait Backend: Sized {
    /// The store's current contents: encoded keys to encoded values.
    spec fn contents(&self) -> Map<Seq<u8>, Seq<u8>>;

    /// Whether this backend's operations can never fail with `Io`.
    spec fn io_free(&self) -> bool;

    /// Record `value` under `key`, both in the 8-byte big-endian encoding,
    /// replacing any previous value of that key.
    fn put(&mut self, key: u64, value: u64) -> (r: Result<(), StoreError>)
        ensures
            final(self).io_free() == old(self).io_free(),
            r is Ok ==> final(self).contents() == old(self).contents().insert(
                be_bytes(key),
                be_bytes(value),
            ),
            r matches Err(e) ==> e == StoreError::Io,
            old(self).io_free() ==> r is Ok,
    ;

    /// Fetch and decode the value recorded under `key`.
    fn get(&self, key: u64) -> (r: Result<u64, StoreError>)
        ensures
            r != Err::<u64, StoreError>(StoreError::Io) ==> r == lookup(self.contents(), key),
            self.io_free() ==> r != Err::<u64, StoreError>(StoreError::Io),
    ;
}

/// The round-trip law: on the contents a successful `put(key, value)`
/// leaves behind, `get(key)` owes exactly `Ok(value)` — the stored bytes
/// decode back to the value that was written, byte-exactly.
pub proof fn lemma_put_then_get(c: Map<Seq<u8>, Seq<u8>>, key: u64, value: u64)
    ensures
        lookup(c.insert(be_bytes(key), be_bytes(value)), key) == Ok::<u64, StoreError>(value),
{
    lemma_be_round_trip(value);
}

}
