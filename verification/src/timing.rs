//! Lightweight instrumentation around the homomorphic stages. Nothing is
//! promised of clock readings; the timed entry points prove only that the
//! wrapped operation's result and error behavior are unchanged.

use vstd::prelude::*;

verus! {

#[verifier::external_type_specification]
#[verifier::external_body]
pub struct ExInstant(std::time::Instant);

/// Relies on std::time::Instant::now: an opaque monotonic timestamp.
#[verifier::external_body]
pub(crate) fn instant_now() -> (r: std::time::Instant) {
    std::time::Instant::now()
}

/// Relies on std::time::Instant::elapsed: the time since `start`.
#[verifier::external_body]
pub(crate) fn instant_elapsed(start: &std::time::Instant) -> (r: core::time::Duration) {
    start.elapsed()
}

/// Relies on core::time::Duration::as_nanos: the duration in nanoseconds.
#[verifier::external_body]
pub(crate) fn duration_nanos(d: &core::time::Duration) -> (r: u128) {
    d.as_nanos()
}

} // verus!
