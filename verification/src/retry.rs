//! The decisions of a retry loop.
//!
//! A retry loop attempts an operation at once; after each failed attempt
//! that may be retried it takes the next delay of its strategy, waits that
//! long and attempts again, and when the strategy yields no more delays it
//! hands back the last error. `RetryState` makes these decisions; the caller
//! attempts the operation, waits, and reports each outcome.
use vstd::prelude::*;
use crate::backoff::{is_run, step_determined, Backoff};
use crate::combinator::take::{lemma_take_bounds_delays, Take};
use crate::duration::Duration;

verus! {

/// What a retry loop does after an attempt.
#[derive(Debug, PartialEq, Eq)]
pub enum RetryAction<T, E> {
    /// Stop and hand back this result.
    Finish(Result<T, E>),
    /// Wait this long, then attempt the operation again.
    Wait(Duration),
}

/// The state of a retry loop: the strategy that yields its delays.
pub struct RetryState<B> {
    backoff: B,
}

/// The decision after an attempt with `outcome`, where `retryable` says
/// whether a failure may be retried: a success is handed back at once, and so
/// is a failure that may not be retried, both leaving the strategy untouched;
/// a failure that may be retried takes one delay from the strategy, waits it,
/// or hands back the error where the strategy yields none.
pub open spec fn decides<B: Backoff, T, E>(
    pre: RetryState<B>,
    outcome: Result<T, E>,
    retryable: bool,
    action: RetryAction<T, E>,
    post: RetryState<B>,
) -> bool {
    match outcome {
        Ok(v) => action == RetryAction::<T, E>::Finish(Ok(v)) && post == pre,
        Err(e) => if !retryable {
            action == RetryAction::<T, E>::Finish(Err(e)) && post == pre
        } else {
            match action {
                RetryAction::Wait(d) => pre.backoff().steps_to(Some(d), post.backoff()),
                RetryAction::Finish(r) => r == Err::<T, E>(e) && pre.backoff().steps_to(
                    None,
                    post.backoff(),
                ),
            }
        },
    }
}

impl<B: Backoff> RetryState<B> {
    /// The strategy that yields the remaining delays.
    pub closed spec fn backoff(self) -> B {
        self.backoff
    }

    /// A retry loop that takes its delays from `backoff`.
    pub fn new(backoff: B) -> (r: Self)
        ensures
            r.backoff() == backoff,
    {
        RetryState { backoff }
    }

    /// Whether taking the next delay stays within the range of `Duration`.
    pub fn check_advance(&self) -> (r: bool)
        ensures
            r == self.backoff().can_advance(),
    {
        self.backoff.check_advance()
    }

    /// Decides what follows an attempt that ended with `outcome`; `retryable`
    /// says whether a failure may be retried.
    pub fn after_attempt<T, E>(&mut self, outcome: Result<T, E>, retryable: bool) -> (action:
        RetryAction<T, E>)
        requires
            outcome is Err && retryable ==> old(self).backoff().can_advance(),
        ensures
            decides(*old(self), outcome, retryable, action, *final(self)),
    {
        match outcome {
            Ok(v) => RetryAction::Finish(Ok(v)),
            Err(e) => {
                if !retryable {
                    RetryAction::Finish(Err(e))
                } else {
                    match self.backoff.next() {
                        Some(delay) => RetryAction::Wait(delay),
                        None => RetryAction::Finish(Err(e)),
                    }
                }
            },
        }
    }
}

/// A success is handed back unchanged at once, and so is a failure that may
/// not be retried; neither takes a delay from the strategy.
pub proof fn lemma_retry_finishes_without_retry<B: Backoff, T, E>(
    pre: RetryState<B>,
    outcome: Result<T, E>,
    retryable: bool,
    action: RetryAction<T, E>,
    post: RetryState<B>,
)
    requires
        decides(pre, outcome, retryable, action, post),
        outcome is Ok || !retryable,
    ensures
        action == RetryAction::<T, E>::Finish(outcome),
        post == pre,
{
}

/// After a failure that may be retried, a loop whose strategy's delay is
/// fixed by its state waits exactly the delay the strategy yields, and hands
/// back the error only when the strategy yields none.
pub proof fn lemma_retry_follows_strategy<B: Backoff, T, E>(
    pre: RetryState<B>,
    error: E,
    action: RetryAction<T, E>,
    post: RetryState<B>,
    delay: Option<Duration>,
)
    requires
        step_determined(pre.backoff()),
        decides(pre, Err::<T, E>(error), true, action, post),
        pre.backoff().steps_to(delay, post.backoff()),
    ensures
        delay is Some ==> action == RetryAction::<T, E>::Wait(delay->0),
        delay is None ==> action == RetryAction::<T, E>::Finish(Err(error)),
{
    match action {
        RetryAction::Wait(d) => {
            assert(pre.backoff().steps_to(Some(d), post.backoff()));
        },
        RetryAction::Finish(r) => {
            assert(pre.backoff().steps_to(None, post.backoff()));
        },
    }
}

/// A strategy that can yield no delay allows no retry: the first attempt's
/// error is handed back at once.
pub proof fn lemma_exhausted_backoff_returns_first_error<B: Backoff, T, E>(
    pre: RetryState<B>,
    error: E,
    action: RetryAction<T, E>,
    post: RetryState<B>,
)
    requires
        forall|d: Option<Duration>, after: B| #[trigger] pre.backoff().steps_to(d, after) ==> d is None,
        decides(pre, Err::<T, E>(error), true, action, post),
    ensures
        action == RetryAction::<T, E>::Finish(Err(error)),
{
    if let RetryAction::Wait(d) = action {
        assert(pre.backoff().steps_to(Some(d), post.backoff()));
    }
}

/// A strategy with no delays allows no retry: the first attempt's error is
/// handed back at once.
pub proof fn lemma_empty_backoff_returns_first_error<T, E>(
    pre: RetryState<Vec<Duration>>,
    error: E,
    action: RetryAction<T, E>,
    post: RetryState<Vec<Duration>>,
)
    requires
        pre.backoff()@.len() == 0,
        decides(pre, Err::<T, E>(error), true, action, post),
    ensures
        action == RetryAction::<T, E>::Finish(Err(error)),
{
}

/// With a strategy limited to `n` retries, a retry loop waits at most `n`
/// times: at most `n + 1` attempts in all.
pub proof fn lemma_retry_attempts_bounded<I: Backoff, T, E>(
    states: Seq<RetryState<Take<I>>>,
    errors: Seq<E>,
    waits: Seq<Duration>,
)
    requires
        states.len() == waits.len() + 1,
        errors.len() == waits.len(),
        forall|i: int|
            #![trigger waits[i]]
            0 <= i < waits.len() ==> decides(
                states[i],
                Err::<T, E>(errors[i]),
                true,
                RetryAction::<T, E>::Wait(waits[i]),
                states[i + 1],
            ),
    ensures
        waits.len() <= states[0].backoff().remaining(),
{
    let backoffs = states.map_values(|s: RetryState<Take<I>>| s.backoff());
    let delays = waits.map_values(|d: Duration| Some(d));
    assert forall|i: int| #![trigger delays[i]] 0 <= i < delays.len() implies backoffs[i].steps_to(
        delays[i],
        backoffs[i + 1],
    ) && delays[i] is Some by {
        assert(decides(
            states[i],
            Err::<T, E>(errors[i]),
            true,
            RetryAction::<T, E>::Wait(waits[i]),
            states[i + 1],
        ));
    }
    assert(is_run(backoffs, delays));
    lemma_take_bounds_delays(backoffs, delays);
}

} // verus!
