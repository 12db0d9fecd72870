//! The figures that the service keeps for whoever watches it. They live in a value that
//! is made once and handed to the service: nothing is global.

use std::time::SystemTime;
use vstd::prelude::*;

verus! {

/// The figures of one service.
#[derive(Debug)]
pub struct Metrics {
    /// Requests that came in over the network.
    pub requests_total: u64,
    pub cache_hits: u64,
    pub cache_misses: u64,
    /// The number of cached originals, as last estimated.
    pub cache_size: u64,
    /// The number of files that the last rebuild of the catalog found.
    pub total_memes: u64,
    /// When the service started; set once.
    pub start_time: Option<SystemTime>,
}

/// The figures at the start: every count is zero and no start is noted.
pub fn init_metrics() -> (m: Metrics)
    ensures
        m.requests_total == 0,
        m.cache_hits == 0,
        m.cache_misses == 0,
        m.cache_size == 0,
        m.total_memes == 0,
        m.start_time is None,
{
    Metrics {
        requests_total: 0,
        cache_hits: 0,
        cache_misses: 0,
        cache_size: 0,
        total_memes: 0,
        start_time: None,
    }
}

/// Notes when the service started. The first time that is noted stays: a later call
/// changes nothing.
pub fn set_service_start_time(metrics: &mut Metrics, start_time: SystemTime)
    ensures
        old(metrics).start_time is None ==> *final(metrics) == (Metrics {
            start_time: Some(start_time),
            ..*old(metrics)
        }),
        old(metrics).start_time is Some ==> *final(metrics) == *old(metrics),
{
    if metrics.start_time.is_none() {
        metrics.start_time = Some(start_time);
    }
}

/// The count after one more was counted: the number after `n`. A count never starts
/// again: at the largest number it stays.
pub open spec fn bump(n: u64) -> u64 {
    if n == u64::MAX {
        n
    } else {
        (n + 1) as u64
    }
}

/// The count after one more was counted.
pub fn bumped(n: u64) -> (m: u64)
    ensures
        m == bump(n),
        m >= n,
{
    if n == u64::MAX {
        n
    } else {
        n + 1
    }
}

impl Metrics {
    /// Counts a request that came in over the network.
    pub fn count_request(&mut self)
        ensures
            *final(self) == (Metrics {
                requests_total: bump(old(self).requests_total),
                ..*old(self)
            }),
    {
        self.requests_total = bumped(self.requests_total);
    }
}

} // verus!
