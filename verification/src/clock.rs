//! The measurement harness: samples the platform's monotonic clock around
//! one synchronous call of a caller-supplied operation.

use vstd::prelude::*;
use std::time::Duration;
use std::time::Instant;
use crate::duration::Elapsed;
use crate::duration::NANOS_PER_SEC;

verus! {

#[verifier::external_type_specification]
#[verifier::external_body]
pub struct ExInstant(Instant);

/// Relies on `std::time::Instant::now`: samples the platform's monotonic
/// clock; nothing can be promised about the opaque sample.
pub assume_specification[ Instant::now ]() -> Instant;

/// Relies on `std::time::Instant::elapsed`: the time since `start` on the
/// same monotonic clock; nothing can be promised about the opaque interval.
pub assume_specification[ Instant::elapsed ](start: &Instant) -> Duration;

/// What `Duration::as_secs` returns: the whole-seconds part of `d`, a
/// function of the duration alone.
pub uninterp spec fn secs_of(d: Duration) -> u64;

/// What `Duration::subsec_nanos` returns: the fractional part of `d` in
/// nanoseconds, a function of the duration alone.
pub uninterp spec fn subsec_nanos_of(d: Duration) -> u32;

/// Relies on `std::time::Duration::as_secs`: the whole-seconds part of the
/// duration.
pub assume_specification[ Duration::as_secs ](d: &Duration) -> (r: u64)
    ensures
        r == secs_of(*d),
;

/// Relies on `std::time::Duration::subsec_nanos`: the fractional part of
/// the duration in nanoseconds, documented to always be below one billion.
pub assume_specification[ Duration::subsec_nanos ](d: &Duration) -> (r: u32)
    ensures
        r == subsec_nanos_of(*d),
        r < NANOS_PER_SEC,
;

/// Wraps a platform duration as an elapsed-duration value, carrying over
/// its whole seconds and its sub-second nanoseconds; always succeeds,
/// since a platform duration already keeps its sub-second part below one
/// second.
pub fn from_duration(d: &Duration) -> (r: Elapsed)
    ensures
        r.secs == secs_of(*d),
        r.subsec_nanos == subsec_nanos_of(*d),
        r.wf(),
{
    Elapsed::new(d.as_secs(), d.subsec_nanos())
}

/// Runs `f` exactly once, synchronously, and returns the wall-clock time
/// its call took together with its result. A panic inside `f` propagates
/// unchanged, and then no elapsed value is produced.
pub fn measure_time<T, F: FnOnce() -> T>(f: F) -> (r: (Elapsed, T))
    requires
        call_requires(f, ()),
    ensures
        r.0.wf(),
        call_ensures(f, (), r.1),
{
    let start = Instant::now();
    let v = f();
    let elapsed = start.elapsed();
    (from_duration(&elapsed), v)
}

} // verus!
