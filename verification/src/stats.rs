//! Counters that threads can share without a lock. The handle registry
//! keeps plain counts of its own, which its contracts speak of.
use vstd::prelude::*;
use std::sync::atomic::AtomicU64;
use std::sync::atomic::Ordering;

verus! {

/// Registry counters (the node-level falsifiers read these).
#[derive(Debug, Default)]
pub struct RegistryStats {
    /// Folds actually executed.
    pub executions: AtomicU64,
    /// Executions answered from the physical-key cache.
    pub cache_hits: AtomicU64,
    /// Results re-viewed without any fold.
    pub reinterpretations: AtomicU64,
}

impl RegistryStats {
    /// Counters that start at zero.
    pub fn new() -> Self {
        RegistryStats {
            executions: AtomicU64::new(0),
            cache_hits: AtomicU64::new(0),
            reinterpretations: AtomicU64::new(0),
        }
    }

    /// Reads a counter. Other threads may move it at any time, so nothing
    /// is claimed of the value read.
    pub fn get(c: &AtomicU64) -> u64 {
        c.load(Ordering::Relaxed)
    }

    /// Counts one executed fold.
    pub fn record_execution(&self) {
        self.executions.fetch_add(1, Ordering::Relaxed);
    }

    /// Counts one execution answered from the cache.
    pub fn record_cache_hit(&self) {
        self.cache_hits.fetch_add(1, Ordering::Relaxed);
    }

    /// Counts one result re-viewed without a fold.
    pub fn record_reinterpretation(&self) {
        self.reinterpretations.fetch_add(1, Ordering::Relaxed);
    }
}

} // verus!
