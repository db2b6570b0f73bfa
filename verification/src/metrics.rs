//! Rate limiting for engine performance sampling.
//!
//! A sampler admits at most one sample per count interval and per minimum
//! time window.  Counters are relaxed atomics raced by many reader threads;
//! the contracts state only what holds of every interleaving, and the
//! best-effort nature is the design: losing a sample is fine, sampling twice
//! in a window is prevented by the compare-exchange.

use std::sync::atomic::{AtomicU64, AtomicUsize, Ordering};
use vstd::prelude::*;

verus! {

/// The least wall-clock distance between two samples of one operation, in
/// milliseconds.
pub const PERF_SAMPLING_MIN_DURATION_MS: u64 = 1000;

/// Relies on solana_time_utils::timestamp: the wall-clock time in
/// milliseconds since the epoch.  Nothing is assumed of the value.
#[verifier::external_body]
pub(crate) fn wallclock_ms() -> u64 {
    solana_time_utils::timestamp()
}

/// The sampling state of one operation: how many calls since the last
/// sample, and when the last sample was taken.
#[derive(Debug)]
pub struct PerfSamplingStatus {
    op_count: AtomicUsize,
    last_sample_time_ms: AtomicU64,
}

impl PerfSamplingStatus {
    /// A fresh status: no operations counted, no sample taken.
    pub fn new() -> PerfSamplingStatus {
        PerfSamplingStatus {
            op_count: AtomicUsize::new(0),
            last_sample_time_ms: AtomicU64::new(0),
        }
    }

    /// Whether the caller should collect a sample now.  A zero interval
    /// disables sampling outright; otherwise a sample is admitted only after
    /// `sample_count_interval` operations and `PERF_SAMPLING_MIN_DURATION_MS`
    /// of wall clock, and the compare-exchange lets exactly one of the
    /// racing threads win the window.
    pub fn should_sample(&self, sample_count_interval: usize) -> (r: bool)
        ensures
            sample_count_interval == 0 ==> !r,
    {
        if sample_count_interval == 0 {
            return false;
        }

        // Rate-limiting based on the number of operations.
        if self.op_count.fetch_add(1, Ordering::Relaxed) < sample_count_interval {
            return false;
        }
        self.op_count.store(0, Ordering::Relaxed);

        // Rate-limiting based on the time distance.
        let current_time_ms: u64 = wallclock_ms();
        let old_time_ms: u64 = self.last_sample_time_ms.load(Ordering::Relaxed);
        if old_time_ms >= u64::MAX - PERF_SAMPLING_MIN_DURATION_MS || old_time_ms
            + PERF_SAMPLING_MIN_DURATION_MS > current_time_ms {
            return false;
        }

        // Another thread may have sampled meanwhile and advanced the stamp;
        // this thread then skips its sample.
        match self.last_sample_time_ms.compare_exchange_weak(
            old_time_ms,
            current_time_ms,
            Ordering::Relaxed,
            Ordering::Relaxed,
        ) {
            Ok(_) => true,
            Err(_) => false,
        }
    }
}

} // verus!
