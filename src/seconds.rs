//! The elapsed-time value, its conversions to and from `Duration`, and the
//! combinators that time a computation.
use std::time::Duration;
use vstd::arithmetic::div_mod::{
    lemma_basic_div, lemma_fundamental_div_mod, lemma_fundamental_div_mod_converse,
    lemma_mod_mod,
};
use vstd::prelude::*;

use crate::clock::{
    duration_as_secs, duration_nanos, duration_new, duration_subsec_micros, instant_elapsed,
    instant_now,
};

verus! {

/// Nanoseconds in one second.
pub const NANOS_PER_SEC: u32 = 1_000_000_000;

/// Nanoseconds in one microsecond.
pub const NANOS_PER_MICRO: u32 = 1_000;

/// The nanosecond count `secs * 10^9 + nanos` of a time given as whole seconds
/// and nanoseconds.
pub open spec fn nanos_of(secs: int, nanos: int) -> int {
    secs * NANOS_PER_SEC + nanos
}

/// The whole seconds in `n` nanoseconds.
pub open spec fn whole_secs(n: int) -> int {
    n / NANOS_PER_SEC as int
}

/// The nanoseconds of `n` that are left below a whole second.
pub open spec fn subsec_nanos(n: int) -> int {
    n % NANOS_PER_SEC as int
}

/// `n` nanoseconds cut down to a whole number of microseconds.
pub open spec fn micros_floor(n: int) -> int {
    n - n % NANOS_PER_MICRO as int
}

/// An elapsed span of wall-clock time.
///
/// The span is held as whole seconds and a sub-second remainder in
/// nanoseconds; its view is the total count of nanoseconds.
#[derive(Debug, Clone, Copy)]
pub struct ElapsedSeconds {
    secs: u64,
    nanos: u32,
}

impl View for ElapsedSeconds {
    type V = nat;

    closed spec fn view(&self) -> nat {
        nanos_of(self.secs as int, self.nanos as int) as nat
    }
}

/// Splitting `n` nanoseconds into whole seconds and the whole microseconds of
/// the rest keeps everything but the nanoseconds below a microsecond.
proof fn lemma_split_micros(n: int)
    requires
        n >= 0,
    ensures
        (n % NANOS_PER_SEC as int) / NANOS_PER_MICRO as int <= 999_999,
        nanos_of(n / NANOS_PER_SEC as int, (n % NANOS_PER_SEC as int) / NANOS_PER_MICRO as int
            * NANOS_PER_MICRO) == micros_floor(n),
{
    let m = n % 1_000_000_000;
    lemma_fundamental_div_mod(n, 1_000_000_000);
    lemma_fundamental_div_mod(m, 1_000);
    lemma_mod_mod(n, 1_000, 1_000_000);
    assert(m % 1_000 == n % 1_000);
    assert(m / 1_000 <= 999_999) by (nonlinear_arith)
        requires
            0 <= m < 1_000_000_000,
    ;
}

impl ElapsedSeconds {
    #[verifier::type_invariant]
    spec fn inv(self) -> bool {
        self.nanos < NANOS_PER_SEC
    }

    /// The span of `secs` seconds and `nanos` nanoseconds; nanoseconds of a
    /// second or more carry into the seconds.
    pub fn new(secs: u64, nanos: u32) -> (r: Self)
        requires
            secs + nanos as u64 / NANOS_PER_SEC as u64 <= u64::MAX,
        ensures
            r@ == nanos_of(secs as int, nanos as int),
    {
        proof {
            lemma_fundamental_div_mod(nanos as int, NANOS_PER_SEC as int);
        }
        ElapsedSeconds {
            secs: secs + (nanos / NANOS_PER_SEC) as u64,
            nanos: nanos % NANOS_PER_SEC,
        }
    }

    /// The empty span.
    pub fn zero() -> (r: Self)
        ensures
            r@ == 0,
    {
        ElapsedSeconds { secs: 0, nanos: 0 }
    }

    /// The span as whole seconds and the nanoseconds below a second.
    pub fn get(&self) -> (r: (u64, u32))
        ensures
            r.0 == whole_secs(self@ as int),
            r.1 == subsec_nanos(self@ as int),
    {
        proof {
            use_type_invariant(self);
            lemma_fundamental_div_mod_converse(
                self@ as int,
                NANOS_PER_SEC as int,
                self.secs as int,
                self.nanos as int,
            );
        }
        (self.secs, self.nanos)
    }

    /// The span as a `Duration`, to the nanosecond.
    pub fn to_duration(&self) -> (r: Duration)
        ensures
            duration_nanos(r) == self@,
    {
        proof {
            use_type_invariant(self);
            lemma_basic_div(self.nanos as int, NANOS_PER_SEC as int);
        }
        duration_new(self.secs, self.nanos)
    }
}

impl From<Duration> for ElapsedSeconds {
    /// The span of `d`, cut down to a whole number of microseconds.
    fn from(d: Duration) -> (r: Self)
        ensures
            r@ == micros_floor(duration_nanos(d) as int),
    {
        let secs = duration_as_secs(&d);
        let micros = duration_subsec_micros(&d);
        proof {
            lemma_split_micros(duration_nanos(d) as int);
        }
        ElapsedSeconds { secs, nanos: micros * NANOS_PER_MICRO }
    }
}

impl vstd::std_specs::convert::FromSpecImpl<Duration> for ElapsedSeconds {
    open spec fn obeys_from_spec() -> bool {
        true
    }

    closed spec fn from_spec(d: Duration) -> Self {
        let n = duration_nanos(d) as int;
        ElapsedSeconds {
            secs: (n / NANOS_PER_SEC as int) as u64,
            nanos: ((n % NANOS_PER_SEC as int) / NANOS_PER_MICRO as int * NANOS_PER_MICRO) as u32,
        }
    }
}

impl ElapsedSeconds {
    /// Runs `f` once between two readings of the monotonic clock, and returns
    /// its value with the span between the readings, cut down to a whole number
    /// of microseconds.
    pub fn time<F, T>(f: F) -> (r: (T, Self)) where F: FnOnce() -> T
        requires
            f.requires(()),
        ensures
            f.ensures((), r.0),
            r.1@ % NANOS_PER_MICRO as nat == 0,
    {
        let start = instant_now();
        let result = f();
        let elapsed = instant_elapsed(&start);
        (result, Self::from(elapsed))
    }

    /// Runs `f` once between two readings of the monotonic clock. When `f`
    /// succeeds, returns its value with the span between the readings, cut down
    /// to a whole number of microseconds; when it fails, returns its error as it
    /// is, and no span.
    pub fn try_time<F, T, E>(f: F) -> (r: Result<(T, Self), E>) where
        F: FnOnce() -> Result<T, E>,
        requires
            f.requires(()),
        ensures
            match r {
                Ok((value, elapsed)) => f.ensures((), Ok(value)) && elapsed@ % NANOS_PER_MICRO as nat
                    == 0,
                Err(e) => f.ensures((), Err(e)),
            },
    {
        let start = instant_now();
        match f() {
            Ok(value) => {
                let elapsed = instant_elapsed(&start);
                Ok((value, Self::from(elapsed)))
            },
            Err(e) => Err(e),
        }
    }
}

/// The empty span reads as no whole seconds and no nanoseconds.
pub proof fn zero_reads_as_zero()
    ensures
        whole_secs(0) == 0,
        subsec_nanos(0) == 0,
{
}

/// A span made of whole seconds and fewer than a second of nanoseconds reads
/// back as exactly those seconds and nanoseconds.
pub proof fn new_reads_back(secs: u64, nanos: u32)
    requires
        nanos < NANOS_PER_SEC,
    ensures
        whole_secs(nanos_of(secs as int, nanos as int)) == secs,
        subsec_nanos(nanos_of(secs as int, nanos as int)) == nanos,
{
    lemma_fundamental_div_mod_converse(
        nanos_of(secs as int, nanos as int),
        NANOS_PER_SEC as int,
        secs as int,
        nanos as int,
    );
}

/// A duration whose nanoseconds below a second are a whole number of
/// microseconds converts without loss: the span has the duration's whole
/// seconds and its nanoseconds below a second.
pub proof fn from_keeps_whole_micros(d: Duration)
    requires
        subsec_nanos(duration_nanos(d) as int) % NANOS_PER_MICRO as int == 0,
    ensures
        micros_floor(duration_nanos(d) as int) == duration_nanos(d),
        whole_secs(micros_floor(duration_nanos(d) as int)) == whole_secs(duration_nanos(d) as int),
        subsec_nanos(micros_floor(duration_nanos(d) as int)) == subsec_nanos(
            duration_nanos(d) as int,
        ),
{
    lemma_mod_mod(duration_nanos(d) as int, 1_000, 1_000_000);
}

/// A duration with nanoseconds below a whole microsecond loses them in the
/// conversion: the span is shorter than the duration, by less than one
/// microsecond.
pub proof fn from_drops_sub_micros(d: Duration)
    requires
        subsec_nanos(duration_nanos(d) as int) % NANOS_PER_MICRO as int != 0,
    ensures
        micros_floor(duration_nanos(d) as int) < duration_nanos(d),
        duration_nanos(d) - micros_floor(duration_nanos(d) as int) < NANOS_PER_MICRO,
{
    lemma_mod_mod(duration_nanos(d) as int, 1_000, 1_000_000);
}

} // verus!
