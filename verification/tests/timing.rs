use std::time::Duration;
use std::time::Instant;

use ttimer::timer;
use ttimer::timer1;
use ttimer::timer2;
use ttimer::Elapsed;
use ttimer::TimerResult;

#[test]
fn result_works() {
    const RESULT: &str = "This is a result string";

    fn some_function() -> String {
        RESULT.to_owned()
    }

    let result = timer("some_function", some_function);

    assert_eq!(&result.result, RESULT);
}

#[test]
fn params_work() {
    fn perform_ops(a: i32, b: usize) -> u32 {
        if a.is_positive() {
            a as u32 + b as u32
        } else {
            b as u32
        }
    }

    let result = timer2("perform_ops", perform_ops, -2, 5);

    assert_eq!(result.result, 5);
}

#[test]
fn name_works() {
    fn does_something() {
        let _ = String::new();
    }

    let result = timer("does_something", does_something);

    assert_eq!(&result.name, "does_something");
}

#[test]
fn params_work_on_the_positive_branch() {
    fn perform_ops(a: i32, b: usize) -> u32 {
        if a.is_positive() {
            a as u32 + b as u32
        } else {
            b as u32
        }
    }

    let result = timer2("perform_ops", perform_ops, 2, 5);

    assert_eq!(result.result, 7);
    assert_eq!(&result.name, "perform_ops");
}

#[test]
fn one_argument_is_handed_on() {
    fn count(s: &str) -> u32 {
        s.chars().count() as u32
    }

    let result = timer1("count", count, "Hello, world!");

    assert_eq!(result.result, 13);
    assert_eq!(&result.name, "count");
}

#[test]
fn closure_carries_more_arguments() {
    let (a, b, c) = (1u32, 2u32, 3u32);
    let result = timer("sum3", move || a + b + c);
    assert_eq!(result.result, 6);
}

#[test]
fn name_is_kept_as_written() {
    let result = timer("  Some::path (x) ", || ());
    assert_eq!(&result.name, "  Some::path (x) ");
    let empty = timer("", || ());
    assert_eq!(&empty.name, "");
}

#[test]
fn callable_runs_exactly_once() {
    let mut calls = 0u32;
    let result = timer("bump", || {
        calls += 1;
        calls
    });
    assert_eq!(result.result, 1);
    assert_eq!(calls, 1);
}

#[test]
fn timing_twice_gives_equal_values() {
    fn square(x: u64) -> u64 {
        x * x
    }

    let first = timer1("square", square, 12);
    let second = timer1("square", square, 12);

    assert_eq!(first.result, 144);
    assert_eq!(first.result, second.result);
    assert_eq!(first.name, second.name);
    assert!(first.time.subsec_nanos() < 1_000_000_000);
    assert!(second.time.subsec_nanos() < 1_000_000_000);
}

#[test]
fn measured_time_covers_a_delay() {
    let delay = Duration::from_millis(30);
    let result = timer("wait", || {
        let start = Instant::now();
        while start.elapsed() < delay {
            std::hint::spin_loop();
        }
    });
    assert!(result.time.as_nanos() >= delay.as_nanos());
    assert!(result.time.as_millis() >= 30);
}

#[test]
fn summary_reports_name_and_milliseconds() {
    let result = TimerResult::new(Elapsed::from_millis(5), (), "does_something");
    assert_eq!(result.summary(), "does_something done in 5 ms");
}

#[test]
fn summary_drops_what_is_below_a_millisecond() {
    let time = Elapsed::new(0, 5_999_999).unwrap();
    let result = TimerResult::new(time, 0u8, "does_something");
    assert_eq!(result.summary(), "does_something done in 5 ms");

    let none = TimerResult::new(Elapsed::new(0, 999_999).unwrap(), 0u8, "quick");
    assert_eq!(none.summary(), "quick done in 0 ms");
}

#[test]
fn summary_of_long_times() {
    let result = TimerResult::new(Elapsed::new(12, 345_678_901).unwrap(), (), "slow");
    assert_eq!(result.summary(), "slow done in 12345 ms");

    let longest = TimerResult::new(Elapsed::new(u64::MAX, 999_999_999).unwrap(), (), "f");
    assert_eq!(longest.summary(), "f done in 18446744073709551615999 ms");
}

#[test]
fn summary_agrees_with_std_formatting() {
    for (secs, nanos) in [(0u64, 0u32), (0, 1_000_000), (1, 0), (9, 999_000_000), (10, 10_000_000), (1_000_000, 7)] {
        let time = Elapsed::new(secs, nanos).unwrap();
        let result = TimerResult::new(time, (), "x y");
        let duration = Duration::new(secs, nanos);
        assert_eq!(result.summary(), format!("{} done in {} ms", "x y", duration.as_millis()));
    }
}

#[test]
fn summary_of_a_timed_call() {
    let result = timer("does_something", || 1 + 1);
    let expected = format!("does_something done in {} ms", result.time.as_millis());
    assert_eq!(result.summary(), expected);
}

#[test]
fn new_keeps_all_three_fields() {
    let time = Elapsed::from_millis(1_500);
    let result = TimerResult::new(time, vec![1, 2, 3], "build");
    assert_eq!(result.time, time);
    assert_eq!(result.result, vec![1, 2, 3]);
    assert_eq!(&result.name, "build");
}

#[test]
fn result_can_be_cloned() {
    let result = TimerResult::new(Elapsed::from_millis(2), String::from("v"), "n");
    let copy = result.clone();
    assert_eq!(copy.time, result.time);
    assert_eq!(copy.result, result.result);
    assert_eq!(copy.name, result.name);
}
