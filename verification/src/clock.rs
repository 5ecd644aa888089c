//! Latency stamping through std's monotonic clock.
//!
//! Every decision is stamped with the wall-clock time the call took. Nothing
//! in the library's logic depends on a clock reading, so nothing is assumed
//! of these values.

use vstd::prelude::*;

verus! {

/// `std::time::Instant`, declared so a clock reading can be carried through
/// verified code; its contents are opaque to the verifier.
#[verifier::external_type_specification]
#[verifier::external_body]
pub struct ExInstant(std::time::Instant);

/// Relies on `std::time::Instant::now`: an opaque reading of the monotonic
/// clock. Nothing is assumed of its value.
#[verifier::external_body]
pub(crate) fn now_instant() -> std::time::Instant {
    std::time::Instant::now()
}

/// Relies on `std::time::Instant::elapsed`: the time since `start` was read.
/// Nothing is assumed of its value.
#[verifier::external_body]
pub(crate) fn elapsed_since(start: &std::time::Instant) -> std::time::Duration {
    start.elapsed()
}

/// Relies on `std::time::Duration::as_nanos`: the duration in whole
/// nanoseconds, truncated to 64 bits. Nothing is assumed of its value.
#[verifier::external_body]
pub(crate) fn duration_nanos(d: &std::time::Duration) -> u64 {
    d.as_nanos() as u64
}

} // verus!
