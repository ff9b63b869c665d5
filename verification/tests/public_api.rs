use retry_rust::backoff::{Backoff, BackoffExt, ExponentialBackoff};
use retry_rust::combinator::{FullJitter, MaxDelay};
use retry_rust::Duration;

#[test]
fn public_backoff_combinators_are_usable() {
    let mut backoff = ExponentialBackoff::new(Duration::from_millis(10), 2)
        .full_jitter()
        .max_delay(Duration::from_millis(15))
        .take(4);

    let mut count = 0;
    while let Some(delay) = backoff.next() {
        assert!(delay <= Duration::from_millis(15));
        count += 1;
    }
    assert_eq!(count, 4);
}

#[test]
fn public_combinator_types_are_constructible() {
    let mut jitter = FullJitter::new(vec![Duration::from_millis(5)]);
    assert!(jitter.next().unwrap() <= Duration::from_millis(5));

    let mut capped = MaxDelay::new(vec![Duration::from_millis(10)], Duration::from_millis(3));
    assert_eq!(capped.next(), Some(Duration::from_millis(3)));
}
