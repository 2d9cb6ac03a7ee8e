//! The monotonic clock, behind trusted declarations: a reading is an opaque
//! instant, and the span between two readings is measured in whole
//! milliseconds.

use vstd::prelude::*;
use std::time::Duration;
use std::time::Instant;

verus! {

/// A point of `std`'s monotonic clock. Opaque: the library never looks
/// inside a reading, it only hands two readings back to `std` to measure the
/// span between them.
#[verifier::external_type_specification]
#[verifier::external_body]
pub struct ExInstant(Instant);

/// Relies on `std::time::Instant::now`: a reading of the monotonic clock.
/// Nothing is promised of the value: it depends on when the call is made.
pub assume_specification[ Instant::now ]() -> Instant;

/// Relies on `std::time::Instant::duration_since`: the time elapsed from
/// `earlier` to `this`, or zero if `earlier` is the later reading. Nothing is
/// promised of the value: it depends on the two readings.
pub assume_specification[ Instant::duration_since ](this: &Instant, earlier: Instant) -> Duration;

/// Relies on `std::time::Duration::as_millis`: the duration in whole
/// milliseconds, truncating any sub-millisecond remainder. Nothing is
/// promised of the value: the duration itself is opaque.
pub assume_specification[ Duration::as_millis ](this: &Duration) -> u128;

} // verus!
