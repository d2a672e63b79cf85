//! The monotonic clock of the standard library, as far as timing a call
//! needs it. Nothing here is proved: these are the statements about
//! `std::time` on which the rest of the crate relies.

use std::time::Duration;
use std::time::Instant;
use vstd::prelude::*;

verus! {

/// `std::time::Instant`, a reading of the monotonic clock. Nothing can be
/// seen inside a reading; it is only carried from the start of a
/// measurement to its end.
#[verifier::external_type_specification]
#[verifier::external_body]
pub struct ExInstant(std::time::Instant);

/// `Instant::now` returns the current reading of the clock. Nothing is
/// claimed of the reading.
pub assume_specification[ std::time::Instant::now ]() -> Instant;

/// `Instant::elapsed` returns the time that has passed since the reading
/// was taken. Nothing is claimed of the amount: it depends on the clock.
pub assume_specification[ std::time::Instant::elapsed ](start: &Instant) -> Duration;

/// `Duration::as_secs` returns the whole seconds of a duration. Any `u64`
/// may come back.
pub assume_specification[ std::time::Duration::as_secs ](duration: &Duration) -> u64;

/// `Duration::subsec_nanos` returns the part of a duration below its whole
/// seconds, in nanoseconds: always less than one second.
pub assume_specification[ std::time::Duration::subsec_nanos ](duration: &Duration) -> (nanos: u32)
    ensures
        nanos < 1_000_000_000,
;

} // verus!
