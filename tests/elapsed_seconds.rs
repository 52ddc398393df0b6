use std::time::{Duration, Instant};

use elapsed::ElapsedSeconds;

fn as_f64(e: &ElapsedSeconds) -> f64 {
    let (secs, nanos) = e.get();
    secs as f64 + nanos as f64 / 1e9
}

#[test]
fn zero_reads_zero() {
    let z = ElapsedSeconds::zero();
    assert_eq!(z.get(), (0, 0));
    assert_eq!(as_f64(&z), 0.0);
}

#[test]
fn new_reads_back_unchanged() {
    assert_eq!(ElapsedSeconds::new(0, 0).get(), (0, 0));
    assert_eq!(ElapsedSeconds::new(7, 123_456_789).get(), (7, 123_456_789));
    assert_eq!(ElapsedSeconds::new(0, 999_999_999).get(), (0, 999_999_999));
    assert_eq!(ElapsedSeconds::new(u64::MAX, 999_999_999).get(), (u64::MAX, 999_999_999));
}

#[test]
fn new_carries_whole_seconds_out_of_nanos() {
    assert_eq!(ElapsedSeconds::new(1, 2_250_000_000).get(), (3, 250_000_000));
    assert_eq!(ElapsedSeconds::new(0, 1_000_000_000).get(), (1, 0));
}

#[test]
fn to_duration_of_one_and_a_half_seconds() {
    let d = ElapsedSeconds::new(1, 500_000_000).to_duration();
    assert_eq!(d.as_secs(), 1);
    assert_eq!(d.subsec_nanos(), 500_000_000);
}

#[test]
fn to_duration_keeps_nanoseconds() {
    let d = ElapsedSeconds::new(4, 1).to_duration();
    assert_eq!(d, Duration::new(4, 1));
    assert_eq!(ElapsedSeconds::zero().to_duration(), Duration::ZERO);
}

#[test]
fn from_two_and_a_quarter_seconds() {
    let e = ElapsedSeconds::from(Duration::new(2, 250_000_000));
    assert_eq!(e.get(), (2, 250_000_000));
    assert_eq!(as_f64(&e), 2.25);
}

#[test]
fn from_whole_microseconds_is_exact() {
    let e = ElapsedSeconds::from(Duration::new(5, 123_456_000));
    assert_eq!(e.get(), (5, 123_456_000));
    assert!((as_f64(&e) - (5.0 + 123_456_000.0 / 1e9)).abs() < f64::EPSILON * 8.0);
}

#[test]
fn from_cuts_to_whole_microseconds() {
    let e = ElapsedSeconds::from(Duration::new(3, 123_456_789));
    assert_eq!(e.get(), (3, 123_456_000));
}

#[test]
fn precision_gap_between_conversions() {
    let d = Duration::new(0, 1);
    let e = ElapsedSeconds::from(d);
    assert_eq!(e.get(), (0, 0));
    assert_ne!(e.to_duration(), d);
    assert!(d - e.to_duration() < Duration::from_micros(1));

    let fine = ElapsedSeconds::new(0, 1);
    assert_eq!(fine.to_duration(), d);

    let d = Duration::new(2, 999_999_999);
    let e = ElapsedSeconds::from(d);
    assert_eq!(e.get(), (2, 999_999_000));
    assert_eq!(d - e.to_duration(), Duration::from_nanos(999));
}

#[test]
fn time_returns_value_and_span() {
    let (v, e) = ElapsedSeconds::time(|| 42);
    assert_eq!(v, 42);
    assert!(as_f64(&e) >= 0.0);
    assert_eq!(e.get().1 % 1_000, 0);
}

#[test]
fn time_measures_a_busy_wait() {
    let wait = Duration::from_millis(200);
    let (_, e) = ElapsedSeconds::time(|| {
        let start = Instant::now();
        while start.elapsed() < wait {}
    });
    let secs = as_f64(&e);
    assert!(secs >= 0.2 * 0.8, "measured {}", secs);
    assert!(secs <= 0.2 * 1.2, "measured {}", secs);
}

#[derive(Debug, PartialEq)]
struct SomeError;

#[test]
fn try_time_passes_success_on() {
    let r: Result<(i32, ElapsedSeconds), SomeError> = ElapsedSeconds::try_time(|| Ok(7));
    let (v, e) = r.unwrap();
    assert_eq!(v, 7);
    assert!(as_f64(&e) >= 0.0);
}

#[test]
fn try_time_passes_failure_on() {
    let r: Result<(i32, ElapsedSeconds), SomeError> = ElapsedSeconds::try_time(|| Err(SomeError));
    assert!(matches!(r, Err(SomeError)));
}

#[test]
fn try_time_runs_the_computation_once() {
    let mut calls = 0;
    let r: Result<((), ElapsedSeconds), SomeError> = ElapsedSeconds::try_time(|| {
        calls += 1;
        Err(SomeError)
    });
    assert!(r.is_err());
    assert_eq!(calls, 1);
}
