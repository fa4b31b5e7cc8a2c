//! The parts of std that the runtime's logic touches and that come without
//! a specification of their own: I/O errors (carried through, rendered as
//! text) and the system clocks.
use vstd::prelude::*;

verus! {

/// `std::io::Error`, carried by the transport errors as their source.
#[verifier::external_type_specification]
#[verifier::external_body]
pub struct ExIoError(std::io::Error);

/// `std::time::Instant`, a reading of the monotonic clock.
#[verifier::external_type_specification]
#[verifier::external_body]
pub struct ExInstant(std::time::Instant);

/// `<Instant as Clone>::clone`: `Instant` is `Copy`, so the clone is the
/// same reading.
pub assume_specification[ <std::time::Instant as Clone>::clone ](i: &std::time::Instant) -> (r:
    std::time::Instant)
    ensures
        r == *i,
;

/// `<std::io::Error as ToString>::to_string`: the text that its `Display`
/// implementation writes for `e`.
///
/// Nothing is stated of the text: for OS errors it comes from the
/// platform's error-message table.
#[verifier::external_body]
pub fn io_error_text(e: &std::io::Error) -> (s: String) {
    e.to_string()
}

/// Nanoseconds since the Unix epoch by the system clock, as
/// `SystemTime::now().duration_since(UNIX_EPOCH).unwrap_or_default().as_nanos()`
/// gives them (0 when the clock reads before the epoch).
///
/// Nothing is stated of the value: it is the time of the call.
#[verifier::external_body]
pub fn unix_time_nanos() -> (t: u128) {
    std::time::SystemTime::now().duration_since(std::time::UNIX_EPOCH).unwrap_or_default().as_nanos()
}

/// `std::time::Instant::now()`.
///
/// Nothing is stated of the reading: it is the time of the call.
#[verifier::external_body]
pub fn monotonic_now() -> (t: std::time::Instant) {
    std::time::Instant::now()
}

/// `Instant::elapsed`: the time since `t` by the monotonic clock.
///
/// Nothing is stated of the duration: it depends on the time of the call.
#[verifier::external_body]
pub fn elapsed_since(t: &std::time::Instant) -> (d: core::time::Duration) {
    t.elapsed()
}

} // verus!
