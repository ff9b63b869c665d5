use retry_rust::backoff::{Backoff, BackoffExt, FixedInterval};
use retry_rust::{Duration, RetryAction, RetryState};
use std::cell::Cell;

/// Drives a retry loop as a caller does, without sleeping; the delays asked
/// for are collected in `waits`.
fn drive<B: Backoff, T, E>(
    backoff: B,
    mut f: impl FnMut() -> Result<T, E>,
    condition: impl Fn(&E) -> bool,
    waits: &mut Vec<Duration>,
) -> Result<T, E> {
    let mut state = RetryState::new(backoff);
    loop {
        let outcome = f();
        let retryable = match &outcome {
            Ok(_) => true,
            Err(e) => condition(e),
        };
        match state.after_attempt(outcome, retryable) {
            RetryAction::Finish(result) => return result,
            RetryAction::Wait(delay) => waits.push(delay),
        }
    }
}

#[test]
fn test_retry_immediate_success() {
    let count = Cell::new(0u32);
    let mut waits = Vec::new();
    let result: Result<i32, &str> = drive(
        vec![Duration::zero(); 3],
        || {
            count.set(count.get() + 1);
            Ok(42)
        },
        |_| true,
        &mut waits,
    );
    assert_eq!(result, Ok(42));
    assert_eq!(count.get(), 1);
    assert!(waits.is_empty());
}

#[test]
fn test_retry_success_on_third_attempt() {
    let count = Cell::new(0u32);
    let mut waits = Vec::new();
    let result: Result<i32, &str> = drive(
        vec![Duration::zero(); 5],
        || {
            let n = count.get();
            count.set(n + 1);
            if n < 2 {
                Err("fail")
            } else {
                Ok(42)
            }
        },
        |_| true,
        &mut waits,
    );
    assert_eq!(result, Ok(42));
    assert_eq!(count.get(), 3);
}

#[test]
fn test_retry_all_fail() {
    let count = Cell::new(0u32);
    let mut waits = Vec::new();
    let result: Result<i32, &str> = drive(
        vec![Duration::zero(); 3],
        || {
            count.set(count.get() + 1);
            Err("fail")
        },
        |_| true,
        &mut waits,
    );
    assert_eq!(result, Err("fail"));
    // 1 initial + 3 retries = 4 calls
    assert_eq!(count.get(), 4);
}

#[test]
fn test_retry_if_non_retryable() {
    let count = Cell::new(0u32);
    let mut waits = Vec::new();
    let result: Result<i32, &str> = drive(
        vec![Duration::zero(); 5],
        || {
            count.set(count.get() + 1);
            Err("fatal")
        },
        |e| *e != "fatal",
        &mut waits,
    );
    assert_eq!(result, Err("fatal"));
    assert_eq!(count.get(), 1);
}

#[test]
fn test_retry_if_retryable() {
    let count = Cell::new(0u32);
    let mut waits = Vec::new();
    let result: Result<i32, &str> = drive(
        vec![Duration::zero(); 5],
        || {
            let n = count.get();
            count.set(n + 1);
            if n < 2 {
                Err("transient")
            } else {
                Ok(42)
            }
        },
        |e| *e == "transient",
        &mut waits,
    );
    assert_eq!(result, Ok(42));
    assert_eq!(count.get(), 3);
}

#[test]
fn public_retry_retries_until_success() {
    let count = Cell::new(0u32);
    let mut waits = Vec::new();
    let result: Result<&str, &str> = drive(
        FixedInterval::new(Duration::zero()).take(3),
        || {
            let n = count.get();
            count.set(n + 1);
            if n < 2 {
                Err("temporary")
            } else {
                Ok("done")
            }
        },
        |_| true,
        &mut waits,
    );

    assert_eq!(result, Ok("done"));
    assert_eq!(count.get(), 3);
}

#[test]
fn public_retry_if_stops_on_non_retryable_error() {
    let count = Cell::new(0u32);
    let mut waits = Vec::new();
    let result: Result<&str, &str> = drive(
        FixedInterval::new(Duration::zero()).take(3),
        || {
            count.set(count.get() + 1);
            Err("fatal")
        },
        |error| *error != "fatal",
        &mut waits,
    );

    assert_eq!(result, Err("fatal"));
    assert_eq!(count.get(), 1);
}

#[test]
fn take_five_means_six_attempts_at_most() {
    let count = Cell::new(0u32);
    let mut waits = Vec::new();
    let result: Result<(), u32> = drive(
        FixedInterval::new(Duration::from_millis(100)).take(5),
        || {
            count.set(count.get() + 1);
            Err(count.get())
        },
        |_| true,
        &mut waits,
    );
    assert_eq!(result, Err(6));
    assert_eq!(count.get(), 6);
    assert_eq!(waits, vec![Duration::from_millis(100); 5]);
}

#[test]
fn an_empty_strategy_attempts_once() {
    let count = Cell::new(0u32);
    let mut waits = Vec::new();
    let result: Result<(), &str> = drive(
        Vec::<Duration>::new(),
        || {
            count.set(count.get() + 1);
            Err("first")
        },
        |_| true,
        &mut waits,
    );
    assert_eq!(result, Err("first"));
    assert_eq!(count.get(), 1);
    assert!(waits.is_empty());
}

#[test]
fn waits_follow_the_strategy() {
    let count = Cell::new(0u32);
    let mut waits = Vec::new();
    let result: Result<u32, &str> = drive(
        vec![Duration::from_secs(1), Duration::from_secs(2), Duration::from_secs(3)],
        || {
            count.set(count.get() + 1);
            if count.get() < 3 {
                Err("again")
            } else {
                Ok(count.get())
            }
        },
        |_| true,
        &mut waits,
    );
    assert_eq!(result, Ok(3));
    assert_eq!(waits, vec![Duration::from_secs(1), Duration::from_secs(2)]);
}

#[test]
fn success_leaves_the_strategy_untouched() {
    let mut state = RetryState::new(vec![Duration::from_secs(7)]);
    assert_eq!(state.after_attempt(Ok::<u8, u8>(1), true), RetryAction::Finish(Ok(1)));
    assert_eq!(state.after_attempt(Err::<u8, u8>(2), false), RetryAction::Finish(Err(2)));
    assert_eq!(state.after_attempt(Err::<u8, u8>(3), true), RetryAction::Wait(Duration::from_secs(7)));
    assert_eq!(state.after_attempt(Err::<u8, u8>(4), true), RetryAction::Finish(Err(4)));
}
