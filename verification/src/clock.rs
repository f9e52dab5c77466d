//! Reading the system clocks.
use vstd::prelude::*;

verus! {

/// A point of the monotonic clock.
#[verifier::external_type_specification]
#[verifier::external_body]
pub struct ExInstant(std::time::Instant);

/// A point of the wall clock.
#[verifier::external_type_specification]
#[verifier::external_body]
pub struct ExSystemTime(std::time::SystemTime);

/// Specifies `std::time::SystemTime::clone`: `SystemTime` is `Copy`, so a
/// clone is the same time.
pub assume_specification[ <std::time::SystemTime as Clone>::clone ](t: &std::time::SystemTime) -> (r:
    std::time::SystemTime)
    ensures
        r == *t,
;

/// Wraps `std::time::Instant::now`: the current monotonic instant. Nothing is
/// stated of the value, which depends on the time of the call.
#[verifier::external_body]
pub fn instant_now() -> std::time::Instant {
    std::time::Instant::now()
}

/// Wraps `std::time::Instant::elapsed`: nanoseconds since `start`, cut to 64
/// bits. Nothing is stated of the value, which depends on the time of the call.
#[verifier::external_body]
pub fn elapsed_ns(start: &std::time::Instant) -> u64 {
    start.elapsed().as_nanos() as u64
}

/// Wraps `std::time::SystemTime::now`: the current wall-clock time. Nothing is
/// stated of the value, which depends on the time of the call.
#[verifier::external_body]
pub fn system_time_now() -> std::time::SystemTime {
    std::time::SystemTime::now()
}

/// Wraps `std::time::SystemTime::duration_since` with the Unix epoch: the
/// nanoseconds since 1970 of `t` cut to 64 bits, or 0 for a time before the
/// epoch. Nothing is stated of the value, which no contract here models.
#[verifier::external_body]
pub fn unix_nanos(t: &std::time::SystemTime) -> u64 {
    t.duration_since(std::time::UNIX_EPOCH).map(|d| d.as_nanos() as u64).unwrap_or(0)
}

/// Current wall-clock time in nanoseconds since the Unix epoch.
pub fn wall_clock_ns() -> u64 {
    let t = system_time_now();
    unix_nanos(&t)
}

} // verus!
