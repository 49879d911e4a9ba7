//! Latency units and the conversion between a `Duration` and an integer count.
use std::time::{Duration, Instant};
use vstd::prelude::*;

verus! {

/// The whole number of nanoseconds that a `Duration` holds.
pub uninterp spec fn duration_nanos(d: Duration) -> nat;

/// Largest number of nanoseconds a `Duration` can hold, plus one: its whole seconds
/// are a `u64` and its fractional part is under one billion nanoseconds.
pub const DURATION_NANOS_BOUND: u128 = 18_446_744_073_709_551_616_000_000_000;

/// Relies on `Duration::as_nanos`: the total number of whole nanoseconds, which is
/// `as_secs() * 10^9 + subsec_nanos()` with `as_secs()` a `u64` and `subsec_nanos()`
/// below one billion.
pub assume_specification[ Duration::as_nanos ](d: &Duration) -> (r: u128)
    ensures
        r == duration_nanos(*d),
        r < DURATION_NANOS_BOUND,
;

/// Relies on `Duration::as_micros`: the total number of whole microseconds.
pub assume_specification[ Duration::as_micros ](d: &Duration) -> (r: u128)
    ensures
        r == duration_nanos(*d) / 1000,
;

/// Relies on `Duration::as_millis`: the total number of whole milliseconds.
pub assume_specification[ Duration::as_millis ](d: &Duration) -> (r: u128)
    ensures
        r == duration_nanos(*d) / 1_000_000,
;

/// Relies on `Duration::from_nanos`: a duration of exactly `nanos` nanoseconds.
pub assume_specification[ Duration::from_nanos ](nanos: u64) -> (r: Duration)
    ensures
        duration_nanos(r) == nanos,
;

/// Relies on `Duration::from_micros`: a duration of exactly `micros` microseconds.
pub assume_specification[ Duration::from_micros ](micros: u64) -> (r: Duration)
    ensures
        duration_nanos(r) == micros * 1000,
;

/// Relies on `Duration::from_millis`: a duration of exactly `millis` milliseconds.
pub assume_specification[ Duration::from_millis ](millis: u64) -> (r: Duration)
    ensures
        duration_nanos(r) == millis * 1_000_000,
;

#[verifier::external_type_specification]
#[verifier::external_body]
pub struct ExInstant(Instant);

/// Relies on `Instant::now`: reads the monotonic clock; nothing is known of the value.
pub assume_specification[ Instant::now ]() -> Instant;

/// Relies on `Instant::duration_since`: the time elapsed from `earlier` to `later`,
/// which depends on the clock readings alone.
pub assume_specification[ Instant::duration_since ](later: &Instant, earlier: Instant) -> Duration;

/// Invokes `f` once and returns its latency.
pub fn latency<F: FnOnce()>(f: F) -> (elapsed: Duration)
    requires
        f.requires(()),
    ensures
        f.ensures((), ()),
{
    let start = Instant::now();
    f();
    Instant::now().duration_since(start)
}

/// Unit of time used to record latencies.
#[derive(Clone, Copy, Debug, PartialEq, Eq, Structural)]
pub enum LatencyUnit {
    Milli,
    Micro,
    Nano,
}

impl LatencyUnit {
    /// Number of nanoseconds in one `self`.
    pub open spec fn nanos(self) -> nat {
        match self {
            LatencyUnit::Milli => 1_000_000,
            LatencyUnit::Micro => 1000,
            LatencyUnit::Nano => 1,
        }
    }

    /// Converts `latency` to a count of whole `self` units, saturating at `u64::MAX`.
    pub fn latency_as_u64(&self, latency: Duration) -> (r: u64)
        ensures
            r == if duration_nanos(latency) / self.nanos() <= u64::MAX {
                duration_nanos(latency) / self.nanos()
            } else {
                u64::MAX as nat
            },
    {
        let count: u128 = match self {
            LatencyUnit::Nano => latency.as_nanos(),
            LatencyUnit::Micro => latency.as_micros(),
            LatencyUnit::Milli => latency.as_millis(),
        };
        if count <= u64::MAX as u128 {
            count as u64
        } else {
            u64::MAX
        }
    }

    /// Converts a count of `self` units to a `Duration`.
    pub fn latency_from_u64(&self, elapsed: u64) -> (r: Duration)
        ensures
            duration_nanos(r) == elapsed * self.nanos(),
    {
        match self {
            LatencyUnit::Nano => Duration::from_nanos(elapsed),
            LatencyUnit::Micro => Duration::from_micros(elapsed),
            LatencyUnit::Milli => Duration::from_millis(elapsed),
        }
    }
}

} // verus!
