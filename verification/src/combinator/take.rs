//! Limiting the number of retries.
use vstd::prelude::*;
use crate::backoff::{is_run, step_determined, Backoff};
use crate::duration::Duration;

verus! {

/// Yields the delays of the wrapped strategy for at most `n` calls, then `None`.
pub struct Take<I> {
    inner: I,
    n: usize,
}

impl<I> Take<I> {
    /// The wrapped strategy.
    pub closed spec fn inner(self) -> I {
        self.inner
    }

    /// The number of calls that still reach the wrapped strategy.
    pub closed spec fn remaining(self) -> usize {
        self.n
    }

    /// Wraps `inner`, allowing at most `n` retries.
    pub fn new(inner: I, n: usize) -> (r: Self)
        ensures
            r.inner() == inner,
            r.remaining() == n,
    {
        Take { inner, n }
    }
}

impl<I: Backoff> Backoff for Take<I> {
    open spec fn can_advance(self) -> bool {
        self.remaining() == 0 || self.inner().can_advance()
    }

    open spec fn steps_to(self, delay: Option<Duration>, after: Self) -> bool {
        if self.remaining() == 0 {
            &&& delay is None
            &&& after == self
        } else {
            &&& after.remaining() == self.remaining() - 1
            &&& self.inner().steps_to(delay, after.inner())
        }
    }

    fn next(&mut self) -> (delay: Option<Duration>) {
        if self.n != 0 {
            self.n = self.n - 1;
            self.inner.next()
        } else {
            None
        }
    }

    fn check_advance(&self) -> (r: bool) {
        self.n == 0 || self.inner.check_advance()
    }
}

/// After `k` calls `n - k` calls remain, and none once `n` are made.
proof fn lemma_take_state<I: Backoff>(states: Seq<Take<I>>, delays: Seq<Option<Duration>>, k: int)
    requires
        is_run(states, delays),
        0 <= k <= delays.len(),
    ensures
        states[k].remaining() == if k <= states[0].remaining() {
            states[0].remaining() - k
        } else {
            0
        },
    decreases k,
{
    if k > 0 {
        lemma_take_state(states, delays, k - 1);
        assert(states[k - 1].steps_to(delays[k - 1], states[k]));
    }
}

/// A strategy limited to `n` calls yields no delay from the `n`-th call on:
/// at most `n` retries.
pub proof fn lemma_take_run<I: Backoff>(states: Seq<Take<I>>, delays: Seq<Option<Duration>>)
    requires
        is_run(states, delays),
    ensures
        forall|i: int|
            #![trigger delays[i]]
            states[0].remaining() <= i < delays.len() ==> delays[i] is None,
{
    assert forall|i: int| #![trigger delays[i]] states[0].remaining() <= i < delays.len() implies delays[i] is None by {
        lemma_take_state(states, delays, i);
        assert(states[i].steps_to(delays[i], states[i + 1]));
    }
}

/// For its first `n` calls a strategy limited to `n` calls is its wrapped
/// strategy: each of them yields exactly the delay the wrapped strategy
/// yields and moves it on by that step.
pub proof fn lemma_take_follows_inner<I: Backoff>(
    states: Seq<Take<I>>,
    delays: Seq<Option<Duration>>,
)
    requires
        is_run(states, delays),
    ensures
        forall|i: int|
            #![trigger delays[i]]
            0 <= i < delays.len() && i < states[0].remaining() ==> states[i].inner().steps_to(
                delays[i],
                states[i + 1].inner(),
            ),
{
    assert forall|i: int| #![trigger delays[i]] 0 <= i < delays.len() && i < states[0].remaining() implies states[i].inner().steps_to(
        delays[i],
        states[i + 1].inner(),
    ) by {
        lemma_take_state(states, delays, i);
        assert(states[i].steps_to(delays[i], states[i + 1]));
    }
}

/// A limited strategy can advance exactly when no call remains or its
/// wrapped strategy can advance.
pub proof fn lemma_take_can_advance<I: Backoff>(s: Take<I>)
    ensures
        s.can_advance() <==> (s.remaining() == 0 || s.inner().can_advance()),
{
}

/// A limited strategy whose wrapped strategy's delay is fixed by its state
/// has its delay fixed by its state too.
pub proof fn lemma_take_determined<I: Backoff>(s: Take<I>)
    requires
        step_determined(s.inner()),
    ensures
        step_determined(s),
{
}

/// A run in which every call yields a delay is no longer than the limit.
pub proof fn lemma_take_bounds_delays<I: Backoff>(
    states: Seq<Take<I>>,
    delays: Seq<Option<Duration>>,
)
    requires
        is_run(states, delays),
        forall|i: int| #![trigger delays[i]] 0 <= i < delays.len() ==> delays[i] is Some,
    ensures
        delays.len() <= states[0].remaining(),
{
    lemma_take_run(states, delays);
    if delays.len() > states[0].remaining() {
        let i = states[0].remaining() as int;
        assert(delays[i] is None);
    }
}

} // verus!
