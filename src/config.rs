//! Operational settings of the store and of logging.
use vstd::prelude::*;

verus! {

/// Where the key-value store lives and how it caches and flushes.
#[derive(Debug, Clone)]
pub struct StorageConfig {
    pub path: String,
    pub cache_size_mb: usize,
    pub flush_interval_ms: u64,
}

/// The log filter to start with.
#[derive(Debug, Clone)]
pub struct LoggingConfig {
    pub level: String,
}

impl StorageConfig {
    /// The cache size in bytes, or `None` where it does not fit in a `u64`.
    pub fn cache_capacity_bytes(&self) -> (r: Option<u64>)
        ensures
            r is Some <==> self.cache_size_mb * 1048576 <= u64::MAX,
            r is Some ==> r->0 == self.cache_size_mb * 1048576,
    {
        let mb = self.cache_size_mb as u64;
        mb.checked_mul(1048576)
    }
}

} // verus!
