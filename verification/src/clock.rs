//! Wall-clock access for timing runs and bounding the benchmark loop.
//!
//! Time is inherently nondeterministic, so none of these wrappers promises
//! anything about the values it returns; verified callers must hold for every
//! possible reading.

use vstd::prelude::*;

verus! {

#[verifier::external_type_specification]
#[verifier::external_body]
pub struct ExInstant(std::time::Instant);

/// Relies on std::time::Instant::now: an opaque monotonic timestamp.
#[verifier::external_body]
pub(crate) fn instant_now() -> std::time::Instant {
    std::time::Instant::now()
}

/// Relies on std::time::Instant::elapsed and std::time::Duration::as_millis:
/// the whole milliseconds since `start` was taken.
#[verifier::external_body]
pub(crate) fn elapsed_millis(start: &std::time::Instant) -> u128 {
    start.elapsed().as_millis()
}

/// Relies on std::time::Instant::elapsed and std::time::Duration::as_nanos:
/// the whole nanoseconds since `start` was taken.
#[verifier::external_body]
pub(crate) fn elapsed_nanos(start: &std::time::Instant) -> u128 {
    start.elapsed().as_nanos()
}

/// Relies on std::time::Instant::elapsed and std::time::Duration::as_secs:
/// the whole seconds since `start` was taken.
#[verifier::external_body]
pub(crate) fn elapsed_secs(start: &std::time::Instant) -> u64 {
    start.elapsed().as_secs()
}

} // verus!
