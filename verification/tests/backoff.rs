use retry_rust::backoff::{
    Backoff, ExponentialBackoff, FibonacciBackoff, FixedInterval, LinearBackoff,
};
use retry_rust::Duration;

#[test]
fn test_exponential_backoff_sequence() {
    let mut backoff = ExponentialBackoff::default();
    assert_eq!(backoff.next(), Some(Duration::from_secs(1)));
    assert_eq!(backoff.next(), Some(Duration::from_secs(2)));
    assert_eq!(backoff.next(), Some(Duration::from_secs(4)));
    assert_eq!(backoff.next(), Some(Duration::from_secs(8)));
    assert_eq!(backoff.next(), Some(Duration::from_secs(16)));
}

#[test]
fn test_exponential_backoff_factor_3() {
    let mut backoff = ExponentialBackoff::new(Duration::from_millis(100), 3);
    assert_eq!(backoff.next(), Some(Duration::from_millis(100)));
    assert_eq!(backoff.next(), Some(Duration::from_millis(300)));
    assert_eq!(backoff.next(), Some(Duration::from_millis(900)));
}

#[test]
fn test_fibonacci_backoff_sequence() {
    let mut backoff = FibonacciBackoff::default();
    assert_eq!(backoff.next(), Some(Duration::from_secs(1)));
    assert_eq!(backoff.next(), Some(Duration::from_secs(1)));
    assert_eq!(backoff.next(), Some(Duration::from_secs(2)));
    assert_eq!(backoff.next(), Some(Duration::from_secs(3)));
    assert_eq!(backoff.next(), Some(Duration::from_secs(5)));
    assert_eq!(backoff.next(), Some(Duration::from_secs(8)));
    assert_eq!(backoff.next(), Some(Duration::from_secs(13)));
}

#[test]
fn test_fibonacci_backoff_custom_unit() {
    let mut backoff = FibonacciBackoff::new(Duration::from_millis(100));
    assert_eq!(backoff.next(), Some(Duration::from_millis(100)));
    assert_eq!(backoff.next(), Some(Duration::from_millis(100)));
    assert_eq!(backoff.next(), Some(Duration::from_millis(200)));
    assert_eq!(backoff.next(), Some(Duration::from_millis(300)));
}

#[test]
fn test_fixed_interval_sequence() {
    let mut backoff = FixedInterval::new(Duration::from_secs(2));
    for _ in 0..5 {
        assert_eq!(backoff.next(), Some(Duration::from_secs(2)));
    }
}

#[test]
fn test_fixed_interval_default() {
    let mut backoff = FixedInterval::default();
    assert_eq!(backoff.next(), Some(Duration::from_secs(1)));
}

#[test]
fn test_linear_backoff_sequence() {
    let mut backoff = LinearBackoff::default();
    assert_eq!(backoff.next(), Some(Duration::from_secs(1)));
    assert_eq!(backoff.next(), Some(Duration::from_secs(2)));
    assert_eq!(backoff.next(), Some(Duration::from_secs(3)));
    assert_eq!(backoff.next(), Some(Duration::from_secs(4)));
    assert_eq!(backoff.next(), Some(Duration::from_secs(5)));
}

#[test]
fn test_linear_backoff_custom() {
    let mut backoff = LinearBackoff::new(Duration::from_millis(100), Duration::from_millis(200));
    assert_eq!(backoff.next(), Some(Duration::from_millis(100)));
    assert_eq!(backoff.next(), Some(Duration::from_millis(300)));
    assert_eq!(backoff.next(), Some(Duration::from_millis(500)));
}

#[test]
fn linear_delays_grow_by_the_step() {
    let mut backoff = LinearBackoff::new(Duration::from_millis(5), Duration::from_millis(7));
    for i in 0..20u64 {
        assert_eq!(backoff.next(), Some(Duration::from_millis(5 + 7 * i)));
    }
}

#[test]
fn exponential_delays_are_powers_of_the_factor() {
    let mut backoff = ExponentialBackoff::new(Duration::from_nanos(3), 5);
    let mut expected: u64 = 3;
    for _ in 0..20 {
        assert_eq!(backoff.next(), Some(Duration::from_nanos(expected)));
        expected *= 5;
    }
}

#[test]
fn exponential_factor_one_stays_fixed_and_zero_drops_to_zero() {
    let mut same = ExponentialBackoff::new(Duration::from_secs(4), 1);
    let mut zero = ExponentialBackoff::new(Duration::from_secs(4), 0);
    assert_eq!(zero.next(), Some(Duration::from_secs(4)));
    for _ in 0..5 {
        assert_eq!(same.next(), Some(Duration::from_secs(4)));
        assert_eq!(zero.next(), Some(Duration::zero()));
    }
}

#[test]
fn fibonacci_delays_follow_the_fibonacci_numbers() {
    let fib: [u64; 12] = [1, 1, 2, 3, 5, 8, 13, 21, 34, 55, 89, 144];
    let mut backoff = FibonacciBackoff::new(Duration::from_millis(3));
    for f in fib.iter() {
        assert_eq!(backoff.next(), Some(Duration::from_millis(3 * f)));
    }
}

#[test]
fn strategies_report_when_the_next_delay_would_overflow() {
    let max_secs = Duration::new(u64::MAX, 999_999_999);
    assert!(!LinearBackoff::new(max_secs, Duration::from_nanos(1)).check_advance());
    assert!(LinearBackoff::new(max_secs, Duration::zero()).check_advance());
    assert!(!ExponentialBackoff::new(max_secs, 2).check_advance());
    assert!(ExponentialBackoff::new(max_secs, 1).check_advance());
    assert!(!FibonacciBackoff::new(max_secs).check_advance());
    assert!(FixedInterval::new(max_secs).check_advance());
}

#[test]
fn a_list_yields_its_items_then_none() {
    let mut list = vec![Duration::from_secs(1), Duration::from_secs(5)];
    assert_eq!(list.next(), Some(Duration::from_secs(1)));
    assert_eq!(list.next(), Some(Duration::from_secs(5)));
    assert_eq!(list.next(), None);
    assert_eq!(list.next(), None);
}
