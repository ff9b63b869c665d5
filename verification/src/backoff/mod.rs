//! Backoff strategies: each yields, one call at a time, the delay to wait
//! before the next retry, or `None` once no retry is left.
use vstd::prelude::*;
use crate::combinator::{EqualJitter, FullJitter, MaxDelay, Take};
use crate::duration::Duration;

pub mod exponential;
pub mod fibonacci;
pub mod fixed;
pub mod linear;
pub mod sequence;

pub use exponential::ExponentialBackoff;
pub use fibonacci::FibonacciBackoff;
pub use fixed::FixedInterval;
pub use linear::LinearBackoff;

verus! {

/// A source of retry delays.
///
/// Each call of `next` yields the delay before the next retry, or `None`
/// when the strategy allows no further retry. Implement it to define a
/// strategy of your own.
pub trait Backoff: Sized {
    /// The next call of `next` stays within the range of `Duration`.
    spec fn can_advance(self) -> bool;

    /// One call of `next` on `self` may yield `delay` and leave the strategy as `after`.
    spec fn steps_to(self, delay: Option<Duration>, after: Self) -> bool;

    /// Yields the next delay.
    fn next(&mut self) -> (delay: Option<Duration>)
        requires
            old(self).can_advance(),
        ensures
            old(self).steps_to(delay, *final(self)),
    ;

    /// Whether the next call of `next` stays within the range of `Duration`.
    fn check_advance(&self) -> (r: bool)
        ensures
            r == self.can_advance(),
    ;
}

/// Combinator methods for every strategy.
pub trait BackoffExt: Backoff {
    /// Adds Full Jitter: each delay made random within `[0, delay]`.
    fn full_jitter(self) -> (r: FullJitter<Self>)
        ensures
            r.inner() == self,
    {
        FullJitter::new(self)
    }

    /// Adds Equal Jitter: each delay made random within `[delay / 2, delay]`.
    fn equal_jitter(self) -> (r: EqualJitter<Self>)
        ensures
            r.inner() == self,
    {
        EqualJitter::new(self)
    }

    /// Caps each delay so that no single wait exceeds `max`.
    fn max_delay(self, max: Duration) -> (r: MaxDelay<Self>)
        ensures
            r.inner() == self,
            r.max() == max,
    {
        MaxDelay::new(self, max)
    }

    /// Allows at most `n` retries.
    fn take(self, n: usize) -> (r: Take<Self>)
        ensures
            r.inner() == self,
            r.remaining() == n,
    {
        Take::new(self, n)
    }
}

impl<B: Backoff> BackoffExt for B {}

/// `states[i]` yields `delays[i]` and becomes `states[i + 1]`: the states a
/// strategy passes through over `delays.len()` calls of `next`.
pub open spec fn is_run<B: Backoff>(states: Seq<B>, delays: Seq<Option<Duration>>) -> bool {
    &&& states.len() == delays.len() + 1
    &&& forall|i: int|
        #![trigger delays[i]]
        0 <= i < delays.len() ==> states[i].steps_to(delays[i], states[i + 1])
}

/// Every step of `b` yields the same delay: the delay is fixed by the state.
pub open spec fn step_determined<B: Backoff>(b: B) -> bool {
    forall|d1: Option<Duration>, a1: B, d2: Option<Duration>, a2: B|
        #[trigger] b.steps_to(d1, a1) && #[trigger] b.steps_to(d2, a2) ==> d1 == d2
}

} // verus!
