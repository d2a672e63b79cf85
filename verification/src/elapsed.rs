//! A span of time held as whole seconds and a fraction in nanoseconds.

use std::time::Instant;
use vstd::prelude::*;

verus! {

/// Nanoseconds in one second.
pub const NANOS_PER_SEC: u32 = 1_000_000_000;

/// Nanoseconds in one millisecond.
pub const NANOS_PER_MILLI: u32 = 1_000_000;

/// Milliseconds in one second.
pub const MILLIS_PER_SEC: u64 = 1_000;

/// A non-negative span of time with nanosecond resolution.
///
/// The span is kept as whole seconds plus a fraction of a second in
/// nanoseconds; the fraction is always below one second. Its view is the
/// whole span in nanoseconds.
#[derive(Clone, Copy, Debug, PartialEq, Eq)]
pub struct Elapsed {
    secs: u64,
    subsec_nanos: u32,
}

impl View for Elapsed {
    type V = int;

    closed spec fn view(&self) -> int {
        self.secs * NANOS_PER_SEC + self.subsec_nanos
    }
}

impl Elapsed {
    #[verifier::type_invariant]
    spec fn fraction_below_one_second(self) -> bool {
        self.subsec_nanos < NANOS_PER_SEC
    }

    /// No span is negative.
    pub proof fn lemma_non_negative(self)
        ensures
            self@ >= 0,
    {
    }

    /// The span of `secs` seconds and `nanos` nanoseconds, or `None` where
    /// `nanos` is a second or more.
    pub fn new(secs: u64, nanos: u32) -> (r: Option<Elapsed>)
        ensures
            nanos < NANOS_PER_SEC ==> r.is_some() && r.unwrap()@ == secs * NANOS_PER_SEC + nanos,
            nanos >= NANOS_PER_SEC ==> r.is_none(),
    {
        if nanos < NANOS_PER_SEC {
            Some(Elapsed { secs, subsec_nanos: nanos })
        } else {
            None
        }
    }

    /// The span of `millis` milliseconds.
    pub fn from_millis(millis: u64) -> (e: Elapsed)
        ensures
            e@ == millis * NANOS_PER_MILLI,
    {
        let secs: u64 = millis / MILLIS_PER_SEC;
        let rest: u64 = millis % MILLIS_PER_SEC;
        let subsec_nanos: u32 = (rest as u32) * NANOS_PER_MILLI;
        Elapsed { secs, subsec_nanos }
    }

    /// The time that has passed on the monotonic clock since `start` was
    /// read. The amount is the clock's to say; the span that holds it is
    /// a span like any other.
    pub(crate) fn since(start: &Instant) -> (e: Elapsed)
        ensures
            e@ >= 0,
    {
        let passed = start.elapsed();
        let secs: u64 = passed.as_secs();
        let subsec_nanos: u32 = passed.subsec_nanos();
        Elapsed { secs, subsec_nanos }
    }

    /// The whole seconds of the span.
    pub fn as_secs(&self) -> (secs: u64)
        ensures
            secs == self@ / (NANOS_PER_SEC as int),
    {
        proof {
            use_type_invariant(self);
        }
        self.secs
    }

    /// The part of the span below its whole seconds, in nanoseconds.
    pub fn subsec_nanos(&self) -> (nanos: u32)
        ensures
            nanos == self@ % (NANOS_PER_SEC as int),
            nanos < NANOS_PER_SEC,
    {
        proof {
            use_type_invariant(self);
        }
        self.subsec_nanos
    }

    /// The whole span in nanoseconds.
    pub fn as_nanos(&self) -> (nanos: u128)
        ensures
            nanos == self@,
    {
        proof {
            use_type_invariant(self);
        }
        let secs: u128 = self.secs as u128;
        assert(secs * NANOS_PER_SEC <= u64::MAX * NANOS_PER_SEC) by (nonlinear_arith)
            requires
                secs <= u64::MAX,
        ;
        secs * (NANOS_PER_SEC as u128) + (self.subsec_nanos as u128)
    }

    /// The whole milliseconds of the span; what is left below a
    /// millisecond is dropped.
    pub fn as_millis(&self) -> (millis: u128)
        ensures
            millis == self@ / (NANOS_PER_MILLI as int),
    {
        proof {
            use_type_invariant(self);
        }
        let secs: u128 = self.secs as u128;
        assert(secs * MILLIS_PER_SEC <= u64::MAX * MILLIS_PER_SEC) by (nonlinear_arith)
            requires
                secs <= u64::MAX,
        ;
        secs * (MILLIS_PER_SEC as u128) + ((self.subsec_nanos / NANOS_PER_MILLI) as u128)
    }
}

} // verus!
