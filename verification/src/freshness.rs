//! Freshness of a cache entry relative to the running executable.

use vstd::prelude::*;

verus! {

/// Nanoseconds in one second.
pub const NANOS_PER_SEC: u32 = 1_000_000_000;

/// A point in time, counted in nanoseconds from the Unix epoch.
///
/// Times before the epoch are negative. The whole range of a 64-bit count of
/// seconds with a 32-bit fraction fits on either side.
#[derive(Clone, Copy, Debug, PartialEq, Eq, Structural)]
pub struct Timestamp {
    /// Nanoseconds since the epoch.
    pub nanos: i128,
}

impl View for Timestamp {
    type V = int;

    open spec fn view(&self) -> int {
        self.nanos as int
    }
}

/// The nanoseconds in `secs` seconds and `subsec_nanos` nanoseconds.
fn total_nanos(secs: u64, subsec_nanos: u32) -> (nanos: i128)
    ensures
        nanos == secs as int * NANOS_PER_SEC as int + subsec_nanos as int,
{
    let per_sec: i128 = NANOS_PER_SEC as i128;
    assert(0 <= secs * per_sec <= 0xffff_ffff_ffff_ffff * 1_000_000_000) by (nonlinear_arith)
        requires
            0 <= secs <= 0xffff_ffff_ffff_ffff,
            per_sec == 1_000_000_000,
    ;
    secs as i128 * per_sec + subsec_nanos as i128
}

impl Timestamp {
    /// The instant `secs` seconds and `subsec_nanos` nanoseconds after the epoch.
    pub fn after_epoch(secs: u64, subsec_nanos: u32) -> (t: Timestamp)
        ensures
            t@ == secs as int * NANOS_PER_SEC as int + subsec_nanos as int,
    {
        Timestamp { nanos: total_nanos(secs, subsec_nanos) }
    }

    /// The instant `secs` seconds and `subsec_nanos` nanoseconds before the epoch.
    pub fn before_epoch(secs: u64, subsec_nanos: u32) -> (t: Timestamp)
        ensures
            t@ == -(secs as int * NANOS_PER_SEC as int + subsec_nanos as int),
    {
        Timestamp { nanos: -total_nanos(secs, subsec_nanos) }
    }
}

/// What a look at the cache entry found.
#[derive(Clone, Copy, Debug, PartialEq, Eq, Structural)]
pub enum FreshnessVerdict {
    /// There is no entry, or it cannot be looked at.
    Absent,
    /// The entry was last written before the running executable was.
    Stale,
    /// The entry is at least as recent as the running executable.
    Fresh,
}

/// The verdict on an entry last modified at `cache_modified` (`None` when the
/// entry could not be found) for an executable last modified at `exe_modified`.
pub open spec fn verdict_of(cache_modified: Option<int>, exe_modified: int) -> FreshnessVerdict {
    match cache_modified {
        None => FreshnessVerdict::Absent,
        Some(t) => if t >= exe_modified {
            FreshnessVerdict::Fresh
        } else {
            FreshnessVerdict::Stale
        },
    }
}

/// The view of an optional timestamp.
pub open spec fn optional_time(t: Option<Timestamp>) -> Option<int> {
    match t {
        None => None,
        Some(t) => Some(t@),
    }
}

/// Judges a cache entry by its modification time alone.
pub fn freshness(cache_modified: Option<Timestamp>, exe_modified: Timestamp) -> (v: FreshnessVerdict)
    ensures
        v == verdict_of(optional_time(cache_modified), exe_modified@),
{
    match cache_modified {
        None => FreshnessVerdict::Absent,
        Some(t) => if t.nanos >= exe_modified.nanos {
            FreshnessVerdict::Fresh
        } else {
            FreshnessVerdict::Stale
        },
    }
}

} // verus!
