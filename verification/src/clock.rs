//! Durations and the monotonic clock, as far as the library relies on them.
//!
//! `std::time` has no verified model, so the few facts used here are stated
//! as trusted contracts on the standard functions themselves.

use std::time::Duration;
use std::time::Instant;
use vstd::prelude::*;

verus! {

/// The monotonic clock's point-in-time type, carried as an opaque value.
#[verifier::external_type_specification]
#[verifier::external_body]
pub struct ExInstant(Instant);

/// The length of a duration in nanoseconds: what `Duration::as_nanos` returns.
pub uninterp spec fn duration_nanos(d: Duration) -> u128;

/// Nanoseconds in one second.
pub const NANOS_PER_SEC: u64 = 1_000_000_000;

/// `Duration::as_nanos` reports the total length of the duration in
/// nanoseconds.
pub assume_specification[ Duration::as_nanos ](d: &Duration) -> (nanos: u128)
    ensures
        nanos == duration_nanos(*d),
;

/// `Duration::from_secs` builds a duration of exactly `secs` whole seconds.
pub assume_specification[ Duration::from_secs ](secs: u64) -> (d: Duration)
    ensures
        duration_nanos(d) == secs as int * NANOS_PER_SEC as int,
;

/// `Instant::now` reads the monotonic clock. Nothing is promised of the
/// reading itself.
pub assume_specification[ Instant::now ]() -> Instant;

/// `Instant::elapsed` measures the time since the instant was taken. The
/// measurement depends on the clock, so nothing is promised of it.
pub assume_specification[ Instant::elapsed ](origin: &Instant) -> Duration;

} // verus!
