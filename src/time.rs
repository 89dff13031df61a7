//! Time spans as whole nanoseconds, and the clock readings the library takes.
use vstd::prelude::*;

verus! {

/// Nanoseconds in one second.
pub const NANOS_PER_SEC: u64 = 1_000_000_000;

/// Nanoseconds in one millisecond.
pub const NANOS_PER_MILLI: u64 = 1_000_000;

/// A span of time, counted in nanoseconds. Constructors saturate at `u64::MAX`.
#[derive(Debug, Clone, Copy, PartialEq, Eq, PartialOrd, Ord, Hash, Structural)]
pub struct TimeSpan {
    /// Length of the span in nanoseconds.
    pub nanos: u64,
}

/// `a * b`, or `u64::MAX` where the product does not fit.
pub open spec fn saturating_product(a: u64, b: u64) -> u64 {
    if a * b > u64::MAX {
        u64::MAX
    } else {
        (a * b) as u64
    }
}

impl TimeSpan {
    /// The empty span.
    pub fn zero() -> (r: TimeSpan)
        ensures
            r.nanos == 0,
    {
        TimeSpan { nanos: 0 }
    }

    /// A span of `nanos` nanoseconds.
    pub fn from_nanos(nanos: u64) -> (r: TimeSpan)
        ensures
            r.nanos == nanos,
    {
        TimeSpan { nanos }
    }

    /// A span of `millis` milliseconds.
    pub fn from_millis(millis: u64) -> (r: TimeSpan)
        ensures
            r.nanos == saturating_product(millis, NANOS_PER_MILLI),
    {
        let nanos = match millis.checked_mul(NANOS_PER_MILLI) {
            Some(n) => n,
            None => u64::MAX,
        };
        TimeSpan { nanos }
    }

    /// A span of `secs` seconds.
    pub fn from_secs(secs: u64) -> (r: TimeSpan)
        ensures
            r.nanos == saturating_product(secs, NANOS_PER_SEC),
    {
        let nanos = match secs.checked_mul(NANOS_PER_SEC) {
            Some(n) => n,
            None => u64::MAX,
        };
        TimeSpan { nanos }
    }

    /// Length of the span in nanoseconds.
    pub fn as_nanos(&self) -> (r: u64)
        ensures
            r == self.nanos,
    {
        self.nanos
    }

    /// Length of the span in whole milliseconds.
    pub fn as_millis(&self) -> (r: u64)
        ensures
            r == self.nanos / NANOS_PER_MILLI,
    {
        self.nanos / NANOS_PER_MILLI
    }


}

#[verifier::external_type_specification]
#[verifier::external_body]
pub struct ExInstant(std::time::Instant);

/// Relies on std::time::Instant::now: a reading of the monotonic clock.
#[verifier::external_body]
pub(crate) fn instant_now() -> std::time::Instant {
    std::time::Instant::now()
}

/// Relies on std::time::Instant::elapsed: nanoseconds since `start`, or
/// `None` where the count does not fit in a `u64`.
#[verifier::external_body]
pub(crate) fn nanos_since(start: &std::time::Instant) -> Option<u64> {
    u64::try_from(start.elapsed().as_nanos()).ok()
}

/// Time elapsed since `start`, saturating at `u64::MAX` nanoseconds.
pub fn elapsed_since(start: &std::time::Instant) -> (r: TimeSpan) {
    match nanos_since(start) {
        Some(n) => TimeSpan { nanos: n },
        None => TimeSpan { nanos: u64::MAX },
    }
}

} // verus!
