//! The wall clock and elapsed time. Nothing is promised of what they return.

use vstd::prelude::*;

verus! {

/// `std::time::Instant`, a point in time; nothing is known of its value.
#[verifier::external_type_specification]
#[verifier::external_body]
pub struct ExInstant(std::time::Instant);

/// `chrono::Utc::now` rendered by `to_rfc3339`: the current time as an
/// RFC 3339 text. The result depends on the clock, so nothing is stated.
#[verifier::external_body]
pub(crate) fn timestamp_now() -> String {
    chrono::Utc::now().to_rfc3339()
}

/// `std::time::Instant::now`: a point in time to measure from.
#[verifier::external_body]
pub(crate) fn instant_now() -> std::time::Instant {
    std::time::Instant::now()
}

/// `std::time::Instant::elapsed`, in whole milliseconds. The result depends
/// on the clock, so nothing is stated.
#[verifier::external_body]
pub(crate) fn elapsed_millis(start: &std::time::Instant) -> u64 {
    start.elapsed().as_millis() as u64
}

} // verus!
