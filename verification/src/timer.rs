//! Timing one call of a function.

use crate::decimal::decimal;
use crate::decimal::push_decimal;
use crate::elapsed::Elapsed;
use crate::elapsed::NANOS_PER_MILLI;
use std::time::Instant;
use vstd::prelude::*;

verus! {

/// What timing one call gives: the value the call returned, the time it
/// took and the name it was timed under.
#[derive(Debug, Clone)]
pub struct TimerResult<T> {
    /// The time it took for the function to execute.
    pub time: Elapsed,
    /// The result returned by the function's execution.
    pub result: T,
    /// The name of the executed function.
    pub name: String,
}

/// `r` can come from timing, under `name`, a call whose possible values
/// are those of which `possible` holds: `r` holds such a value and the
/// name as it was given, and its time is not negative.
pub open spec fn timed<T>(name: Seq<char>, possible: spec_fn(T) -> bool, r: TimerResult<T>) -> bool {
    &&& possible(r.result)
    &&& r.name@ == name
    &&& r.time@ >= 0
}

/// `possible` holds of one value at most.
pub open spec fn single_valued<T>(possible: spec_fn(T) -> bool) -> bool {
    forall|a: T, b: T| #[trigger] possible(a) && #[trigger] possible(b) ==> a == b
}

/// The line that reports a call timed under `name` that took `nanos`
/// nanoseconds: the name, ` done in `, the whole milliseconds in decimal
/// notation, and ` ms`.
pub open spec fn summary_line(name: Seq<char>, nanos: int) -> Seq<char> {
    name + " done in "@ + decimal((nanos / (NANOS_PER_MILLI as int)) as nat) + " ms"@
}

impl<T> TimerResult<T> {
    /// Bundles a result with the time it took and the name of the call.
    pub fn new(time: Elapsed, result: T, name: &str) -> (r: TimerResult<T>)
        ensures
            r.time == time,
            r.result == result,
            r.name@ == name@,
    {
        TimerResult { time, result, name: name.to_owned() }
    }

    /// The line that reports this result: `{name} done in {time} ms`, with
    /// the time in whole milliseconds.
    pub fn summary(&self) -> (line: String)
        ensures
            line@ == summary_line(self.name@, self.time@),
    {
        let mut line = self.name.clone();
        line.append(" done in ");
        push_decimal(&mut line, self.time.as_millis());
        line.append(" ms");
        line
    }
}

/// Calls `f` once and measures the time that the call takes.
pub fn timer<T, F: FnOnce() -> T>(name: &str, f: F) -> (r: TimerResult<T>)
    requires
        f.requires(()),
    ensures
        timed(name@, |v: T| f.ensures((), v), r),
{
    let watch = Instant::now();
    let result = f();
    let time = Elapsed::since(&watch);
    TimerResult::new(time, result, name)
}

/// Calls `f` once on the argument `a` and measures the time that the call
/// takes.
pub fn timer1<A, T, F: FnOnce(A) -> T>(name: &str, f: F, a: A) -> (r: TimerResult<T>)
    requires
        f.requires((a,)),
    ensures
        timed(name@, |v: T| f.ensures((a,), v), r),
{
    let watch = Instant::now();
    let result = f(a);
    let time = Elapsed::since(&watch);
    TimerResult::new(time, result, name)
}

/// Calls `f` once on the arguments `a` and `b` and measures the time that
/// the call takes. A call with more arguments is timed as a closure that
/// makes it, handed to [`timer`].
pub fn timer2<A, B, T, F: FnOnce(A, B) -> T>(name: &str, f: F, a: A, b: B) -> (r: TimerResult<T>)
    requires
        f.requires((a, b)),
    ensures
        timed(name@, |v: T| f.ensures((a, b), v), r),
{
    let watch = Instant::now();
    let result = f(a, b);
    let time = Elapsed::since(&watch);
    TimerResult::new(time, result, name)
}

/// Timing the same call twice gives the same value both times where the
/// call can return one value only; both results carry the name that was
/// given, and neither time is negative.
pub proof fn lemma_timer_repeatable<T>(
    name: Seq<char>,
    possible: spec_fn(T) -> bool,
    first: TimerResult<T>,
    second: TimerResult<T>,
)
    requires
        single_valued(possible),
        timed(name, possible, first),
        timed(name, possible, second),
    ensures
        first.result == second.result,
        first.name@ == second.name@,
        first.time@ >= 0,
        second.time@ >= 0,
{
}

} // verus!
