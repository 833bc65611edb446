//! Readings of the machine's clocks, as plain integers.
//!
//! Nothing in the library decides anything on a clock it has read itself
//! without also offering the same decision on a reading that the caller
//! supplies: every function that reads a clock has a twin ending in `_at`.

use std::time::{Duration, Instant};
use vstd::prelude::*;

verus! {

/// `std::time::Instant`, a reading of the monotonic clock. Nothing is known
/// of a value.
#[verifier::external_type_specification]
#[verifier::external_body]
pub struct ExInstant(Instant);

/// The whole nanoseconds that a `Duration` spans.
pub uninterp spec fn duration_nanos(d: Duration) -> nat;

/// `Instant::now`: the monotonic clock's present reading.
#[verifier::external_body]
fn instant_now() -> Instant {
    Instant::now()
}

/// `Instant::elapsed`: the time since the reading was taken. Nothing is
/// claimed of it.
#[verifier::external_body]
fn instant_elapsed(origin: &Instant) -> Duration {
    origin.elapsed()
}

/// `Duration::as_nanos`: the whole nanoseconds that the duration spans.
#[verifier::external_body]
fn duration_as_nanos(d: &Duration) -> (n: u128)
    ensures
        n == duration_nanos(*d),
{
    d.as_nanos()
}

/// `chrono::Utc::now`, as milliseconds since the Unix epoch. Nothing is
/// claimed of it. chrono gives up on a system clock set before 1970.
#[verifier::external_body]
pub(crate) fn wall_clock_millis() -> i64 {
    chrono::Utc::now().timestamp_millis()
}

/// A duration in nanoseconds, held to what 64 bits can count (some 584
/// years).
pub open spec fn nanos_u64(d: Duration) -> u64 {
    if duration_nanos(d) > u64::MAX {
        u64::MAX
    } else {
        duration_nanos(d) as u64
    }
}

/// A duration in nanoseconds, held to what 64 bits can count.
pub fn duration_to_nanos(d: &Duration) -> (n: u64)
    ensures
        n == nanos_u64(*d),
{
    let wide = duration_as_nanos(d);
    if wide > u64::MAX as u128 {
        u64::MAX
    } else {
        wide as u64
    }
}

/// A monotonic clock that counts from the moment it was started.
pub struct Stopwatch {
    origin: Instant,
}

impl Stopwatch {
    /// Starts counting now: at whatever the monotonic clock reads, of which
    /// nothing is claimed.
    pub fn start() -> Stopwatch {
        Stopwatch { origin: instant_now() }
    }

    /// Nanoseconds since the start, held to what 64 bits can count. A
    /// reading depends on when it is taken, so nothing is claimed of it, nor
    /// of two readings together; what becomes of a time span is stated at
    /// `duration_to_nanos`.
    pub fn elapsed_nanos(&self) -> u64 {
        let elapsed = instant_elapsed(&self.origin);
        duration_to_nanos(&elapsed)
    }
}

} // verus!
