//! The parts of `std::time` that the library relies on: spans of time as
//! `Duration` and readings of the monotonic clock as `Instant`.
use std::time::{Duration, Instant};
use vstd::prelude::*;

use crate::seconds::{nanos_of, NANOS_PER_MICRO, NANOS_PER_SEC};

verus! {

#[verifier::external_type_specification]
#[verifier::external_body]
pub struct ExInstant(Instant);

/// The length of a `Duration` in nanoseconds: its whole seconds times 10^9
/// plus its nanoseconds below a second. The wrappers below state their results
/// over it.
pub uninterp spec fn duration_nanos(d: Duration) -> nat;

/// Relies on `Duration::new`: the span of `secs` seconds and `nanos`
/// nanoseconds, where nanoseconds of a second or more carry into the seconds;
/// it panics only when that carry overflows the seconds.
#[verifier::external_body]
pub(crate) fn duration_new(secs: u64, nanos: u32) -> (r: Duration)
    requires
        secs + nanos as u64 / NANOS_PER_SEC as u64 <= u64::MAX,
    ensures
        duration_nanos(r) == nanos_of(secs as int, nanos as int),
{
    Duration::new(secs, nanos)
}

/// Relies on `Duration::as_secs`: the whole seconds of the span.
#[verifier::external_body]
pub(crate) fn duration_as_secs(d: &Duration) -> (r: u64)
    ensures
        r == duration_nanos(*d) / (NANOS_PER_SEC as nat),
{
    d.as_secs()
}

/// Relies on `Duration::subsec_micros`: the part of the span below one second,
/// in whole microseconds.
#[verifier::external_body]
pub(crate) fn duration_subsec_micros(d: &Duration) -> (r: u32)
    ensures
        r == (duration_nanos(*d) % (NANOS_PER_SEC as nat)) / (NANOS_PER_MICRO as nat),
{
    d.subsec_micros()
}

/// Relies on `Instant::now`: a reading of the monotonic clock.
#[verifier::external_body]
pub(crate) fn instant_now() -> (r: Instant) {
    Instant::now()
}

/// Relies on `Instant::elapsed`: the span from `start` to a reading of the
/// monotonic clock taken now. Nothing is known of its length.
#[verifier::external_body]
pub(crate) fn instant_elapsed(start: &Instant) -> (r: Duration) {
    start.elapsed()
}

} // verus!
