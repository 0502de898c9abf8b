//! The monotonic clock, as far as the library touches it.

use vstd::prelude::*;
use std::time::{Duration, Instant};

verus! {

#[verifier::external_type_specification]
#[verifier::external_body]
pub struct ExInstant(Instant);

/// `Instant::now()`. Nothing is claimed of the moment it returns.
#[verifier::external_body]
pub(crate) fn instant_now() -> Instant {
    Instant::now()
}

/// `Instant::elapsed()`: time since `start`; depends on the clock, so nothing is claimed.
#[verifier::external_body]
pub(crate) fn elapsed_since(start: &Instant) -> Duration {
    start.elapsed()
}

/// `Duration::as_secs()`: whole seconds of `d`. Nothing is claimed, as the
/// duration is opaque here.
#[verifier::external_body]
pub(crate) fn whole_secs(d: &Duration) -> u64 {
    d.as_secs()
}

} // verus!
