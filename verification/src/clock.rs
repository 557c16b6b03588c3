//! Time elapsed since a start instant, as the packet timestamps use it.
use std::time::{Duration, Instant};
use vstd::prelude::*;

verus! {

#[verifier::external_type_specification]
#[verifier::external_body]
pub struct ExInstant(std::time::Instant);

/// `Instant::elapsed`: the time since `start`; it depends on the clock, so
/// nothing is promised of it.
#[verifier::external_body]
pub(crate) fn elapsed(start: &Instant) -> Duration {
    start.elapsed()
}

/// `Duration::as_millis`: the whole milliseconds of `d`.
#[verifier::external_body]
pub(crate) fn as_millis(d: &Duration) -> u128 {
    d.as_millis()
}

} // verus!
