use vstd::prelude::*;

verus! {

#[verifier::external_type_specification]
#[verifier::external_body]
pub struct ExInstant(std::time::Instant);

/// Relies on `Clone` for `std::time::Instant`, a `Copy` type: the copy is the same
/// reading.
pub assume_specification[ <std::time::Instant as Clone>::clone ](i: &std::time::Instant) -> (r: std::time::Instant)
    ensures
        r == *i,
;

/// Relies on `std::time::Instant::now`: a reading of the monotonic clock. Nothing is
/// stated of it.
#[verifier::external_body]
pub(crate) fn monotonic_now() -> (r: std::time::Instant) {
    std::time::Instant::now()
}

/// Relies on `std::time::Instant::elapsed`: whole milliseconds of the monotonic clock
/// since `origin`. The value depends on the clock, so nothing is stated of it.
#[verifier::external_body]
pub(crate) fn millis_since(origin: &std::time::Instant) -> (r: u64) {
    origin.elapsed().as_millis() as u64
}

/// Relies on `std::time::SystemTime::now` read against `UNIX_EPOCH`: milliseconds since
/// the Unix epoch, `None` when the clock reads earlier than it. The value depends on the
/// clock, so nothing is stated of it.
#[verifier::external_body]
pub(crate) fn unix_millis() -> (r: Option<u64>) {
    match std::time::SystemTime::now().duration_since(std::time::UNIX_EPOCH) {
        Ok(d) => Some(d.as_millis() as u64),
        Err(_) => None,
    }
}

/// The current time in milliseconds since the Unix epoch; a clock set before the
/// epoch reads as 0.
pub fn now_millis() -> (r: u64) {
    match unix_millis() {
        Some(t) => t,
        None => 0,
    }
}

} // verus!
