//! Elapsed wall-clock time held as whole seconds and a nanosecond remainder,
//! with conversions to and from `std::time::Duration` and combinators that time
//! a computation.
pub mod clock;
pub mod seconds;

pub use seconds::ElapsedSeconds;
