//! Wall-clock readings for latency metrics.
//!
//! Dispatch times the connection claim and the whole request to feed
//! the latency histograms. What a clock returns depends on when it is
//! read, so nothing is stated about these values; the core only passes
//! the measured duration on to the metrics sink.

use vstd::prelude::*;

use core::time::Duration;
use std::time::Instant;

verus! {

#[verifier::external_type_specification]
#[verifier::external_body]
pub struct ExInstant(Instant);

/// Relies on std::time::Instant::now: an opaque reading of a monotonic
/// clock. The value depends on the time of the call, so nothing is
/// stated about it.
#[verifier::external_body]
pub(crate) fn instant_now() -> Instant {
    Instant::now()
}

/// Relies on std::time::Instant::elapsed: the time since `start`. The
/// value depends on the time of the call, so nothing is stated about
/// it.
#[verifier::external_body]
pub(crate) fn instant_elapsed(start: &Instant) -> Duration {
    start.elapsed()
}

} // verus!
