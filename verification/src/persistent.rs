//! The persistent on-disk backend, an adapter over a `sled` store.
//!
//! The store itself is an opaque external collaborator: what it holds is
//! named by the uninterpreted `db_contents`, and the three operations the
//! harness uses (`open`, `insert`, `get`) are trusted wrappers whose
//! contracts state what sled's documentation promises of them. Everything
//! above those wrappers — encoding, decoding, and the adapter's own
//! `put`/`get` contracts — is verified.

use vstd::prelude::*;
use crate::backend::Backend;
use crate::codec::{be_bytes, decode_u64, encode_u64};
use crate::error::StoreError;

verus! {

#[verifier::external_type_specification]
#[verifier::external_body]
pub struct ExDb(sled::Db);

/// The encoded key-value pairs the on-disk store currently holds.
pub uninterp spec fn db_contents(db: sled::Db) -> Map<Seq<u8>, Seq<u8>>;

/// Relies on sled::open: opens the store at `path`, creating it if absent;
/// whatever the path already held is kept, so nothing is known of the
/// opened store's contents.
#[verifier::external_body]
fn db_open(path: &str) -> (r: Result<sled::Db, StoreError>)
    ensures
        r matches Err(e) ==> e == StoreError::Io,
{
    match sled::open(path) {
        Ok(db) => Ok(db),
        Err(_) => Err(StoreError::Io),
    }
}

/// Relies on sled::Tree::insert: sets `key` to `value` (returning the
/// previous value, discarded here); on failure nothing is known of the
/// store's contents.
#[verifier::external_body]
fn db_insert(db: &mut sled::Db, key: &Vec<u8>, value: &Vec<u8>) -> (r: Result<(), StoreError>)
    ensures
        r is Ok ==> db_contents(*final(db)) == db_contents(*old(db)).insert(key@, value@),
        r matches Err(e) ==> e == StoreError::Io,
{
    match db.insert(key.as_slice(), value.as_slice()) {
        Ok(_) => Ok(()),
        Err(_) => Err(StoreError::Io),
    }
}

/// Relies on sled::Tree::get: returns the value recorded under `key` if
/// there is one, byte for byte.
#[verifier::external_body]
fn db_get(db: &sled::Db, key: &Vec<u8>) -> (r: Result<Option<Vec<u8>>, StoreError>)
    ensures
        r matches Ok(Some(bytes)) ==> db_contents(*db).contains_key(key@) && bytes@
            == db_contents(*db)[key@],
        r matches Ok(opt) && opt is None ==> !db_contents(*db).contains_key(key@),
        r matches Err(e) ==> e == StoreError::Io,
{
    match db.get(key.as_slice()) {
        Ok(Some(ivec)) => Ok(Some(ivec.to_vec())),
        Ok(None) => Ok(None),
        Err(_) => Err(StoreError::Io),
    }
}

/// The persistent backend: a handle on an open on-disk store.
pub struct PersistentBackend {
    db: sled::Db,
}

impl PersistentBackend {
    /// Open the store at `path`, creating it if absent. Existing contents
    /// at the path are kept, so nothing is known of the opened backend's
    /// contents.
    pub fn open(path: &str) -> (r: Result<PersistentBackend, StoreError>)
        ensures
            r matches Err(e) ==> e == StoreError::Io,
    {
        match db_open(path) {
            Ok(db) => Ok(PersistentBackend { db }),
            Err(e) => Err(e),
        }
    }
}

impl Backend for PersistentBackend {
    closed spec fn contents(&self) -> Map<Seq<u8>, Seq<u8>> {
        db_contents(self.db)
    }

    closed spec fn io_free(&self) -> bool {
        false
    }

    fn put(&mut self, key: u64, value: u64) -> (r: Result<(), StoreError>) {
        let k = encode_u64(key);
        let v = encode_u64(value);
        db_insert(&mut self.db, &k, &v)
    }

    fn get(&self, key: u64) -> (r: Result<u64, StoreError>) {
        let k = encode_u64(key);
        match db_get(&self.db, &k) {
            Ok(Some(bytes)) => decode_u64(&bytes),
            Ok(None) => Err(StoreError::NotFound),
            Err(e) => Err(e),
        }
    }
}

}
