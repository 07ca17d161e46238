//! Durable key-value storage of the mappings, on a sled database.
//!
//! What the store holds lives on disk and may be changed by other handles, so
//! the contracts here state only what holds of every answer.
use vstd::prelude::*;
use vstd::utf8::encode_utf8;

verus! {

#[verifier::external_type_specification]
#[verifier::external_body]
pub struct ExDb(sled::Db);

/// Whether `key` begins with `prefix`.
pub open spec fn has_prefix(key: Seq<u8>, prefix: Seq<u8>) -> bool {
    prefix.len() <= key.len() && key.take(prefix.len() as int) == prefix
}

/// Relies on sled's `Tree::insert`: inserts or overwrites `key`.
#[verifier::external_body]
fn db_insert(db: &sled::Db, key: &str, value: &str) -> (r: Result<(), String>) {
    db.insert(key.as_bytes(), value.as_bytes())
        .map(|_| ())
        .map_err(|e| format!("Failed to store URL mapping: {}", e))
}

/// Relies on sled's `Tree::flush`: returns once the dirty buffers are
/// written and synced to disk.
#[verifier::external_body]
fn db_flush(db: &sled::Db) -> (r: Result<(), String>) {
    db.flush().map(|_| ()).map_err(|e| format!("Failed to flush database: {}", e))
}

/// Relies on sled's `Tree::get`: exact-match lookup of `key`, the bytes
/// read as text with invalid sequences replaced.
#[verifier::external_body]
fn db_get(db: &sled::Db, key: &str) -> (r: Result<Option<String>, String>) {
    db.get(key.as_bytes())
        .map(|v| v.map(|bytes| String::from_utf8_lossy(&bytes).into_owned()))
        .map_err(|e| format!("Failed to retrieve URL mapping: {}", e))
}

/// Relies on sled's `Tree::scan_prefix`: every entry it yields has a key
/// that starts with `prefix`. Collecting into a `Result` stops at the first
/// failed read.
#[verifier::external_body]
fn db_scan_prefix(db: &sled::Db, prefix: &str) -> (r: Result<Vec<(Vec<u8>, Vec<u8>)>, String>)
    ensures
        r is Ok ==> forall|i: int| 0 <= i < r->Ok_0@.len() ==> has_prefix((#[trigger] r->Ok_0@[i]).0@, encode_utf8(prefix@)),
{
    db.scan_prefix(prefix.as_bytes())
        .map(|item| {
            item.map(|(k, v)| (k.to_vec(), v.to_vec()))
                .map_err(|e| format!("Failed to scan database: {}", e))
        })
        .collect()
}

#[derive(Debug)]
pub enum RepositoryError {
    Storage(String),
}

/// One stored pair, as bytes.
#[derive(Debug)]
pub struct Entry {
    pub key: Vec<u8>,
    pub value: Vec<u8>,
}

pub struct SledUrlRepository {
    db: sled::Db,
}

impl SledUrlRepository {
    pub fn new(db: sled::Db) -> (r: SledUrlRepository) {
        SledUrlRepository { db }
    }

    /// Writes `short_url → long_url`, inserting or overwriting; success is
    /// reported only once the write has been flushed.
    pub fn store(&self, short_url: &str, long_url: &str) -> (r: Result<(), RepositoryError>)
        ensures
            r is Err ==> r->Err_0 is Storage,
    {
        if let Err(msg) = db_insert(&self.db, short_url, long_url) {
            return Err(RepositoryError::Storage(msg));
        }
        match db_flush(&self.db) {
            Ok(()) => Ok(()),
            Err(msg) => Err(RepositoryError::Storage(msg)),
        }
    }

    /// Looks `short_url` up by exact match.
    pub fn get(&self, short_url: &str) -> (r: Result<Option<String>, RepositoryError>)
        ensures
            r is Err ==> r->Err_0 is Storage,
    {
        match db_get(&self.db, short_url) {
            Ok(found) => Ok(found),
            Err(msg) => Err(RepositoryError::Storage(msg)),
        }
    }

    /// All entries whose key starts with `prefix` (all of them for an empty
    /// prefix); the first failed read ends the scan with an error.
    pub fn scan_prefix(&self, prefix: &str) -> (r: Result<Vec<Entry>, RepositoryError>)
        ensures
            r is Ok ==> forall|i: int| 0 <= i < r->Ok_0@.len() ==> has_prefix((#[trigger] r->Ok_0@[i]).key@, encode_utf8(prefix@)),
            r is Err ==> r->Err_0 is Storage,
    {
        let raw = match db_scan_prefix(&self.db, prefix) {
            Ok(raw) => raw,
            Err(msg) => {
                return Err(RepositoryError::Storage(msg));
            },
        };
        let mut entries: Vec<Entry> = Vec::new();
        let mut i: usize = 0;
        while i < raw.len()
            invariant
                i <= raw@.len(),
                entries@.len() == i,
                forall|j: int| 0 <= j < raw@.len() ==> has_prefix((#[trigger] raw@[j]).0@, encode_utf8(prefix@)),
                forall|j: int| 0 <= j < i ==> has_prefix((#[trigger] entries@[j]).key@, encode_utf8(prefix@)),
            decreases raw@.len() - i,
        {
            let (k, v) = &raw[i];
            entries.push(Entry { key: k.clone(), value: v.clone() });
            i += 1;
        }
        Ok(entries)
    }
}

} // verus!
