//! The fixed-interval strategy.
use vstd::prelude::*;
use crate::backoff::{is_run, step_determined, Backoff};
use crate::duration::Duration;

verus! {

/// Waits the same time before every retry. Sequence: d, d, d, d, ...
pub struct FixedInterval {
    interval: Duration,
}

impl FixedInterval {
    /// The delay yielded on every call.
    pub closed spec fn interval(self) -> Duration {
        self.interval
    }

    /// A strategy that always yields `interval`.
    pub fn new(interval: Duration) -> (r: Self)
        ensures
            r.interval() == interval,
    {
        FixedInterval { interval }
    }
}

impl Default for FixedInterval {
    /// One second between retries.
    fn default() -> (r: Self)
        ensures
            r.interval()@ == 1_000_000_000,
    {
        FixedInterval { interval: Duration::from_secs(1) }
    }
}

impl Backoff for FixedInterval {
    open spec fn can_advance(self) -> bool {
        true
    }

    open spec fn steps_to(self, delay: Option<Duration>, after: Self) -> bool {
        &&& delay == Some(self.interval())
        &&& after == self
    }

    fn next(&mut self) -> (delay: Option<Duration>) {
        Some(self.interval)
    }

    fn check_advance(&self) -> (r: bool) {
        true
    }
}

/// A fixed-interval strategy stays as it was over any number of calls.
proof fn lemma_fixed_state(states: Seq<FixedInterval>, delays: Seq<Option<Duration>>, k: int)
    requires
        is_run(states, delays),
        0 <= k <= delays.len(),
    ensures
        states[k] == states[0],
    decreases k,
{
    if k > 0 {
        lemma_fixed_state(states, delays, k - 1);
        assert(states[k - 1].steps_to(delays[k - 1], states[k]));
    }
}

/// Every delay of a fixed-interval strategy is its interval.
pub proof fn lemma_fixed_run(states: Seq<FixedInterval>, delays: Seq<Option<Duration>>)
    requires
        is_run(states, delays),
    ensures
        forall|i: int| 0 <= i < delays.len() ==> delays[i] == Some(states[0].interval()),
{
    assert forall|i: int| 0 <= i < delays.len() implies delays[i] == Some(
        states[0].interval(),
    ) by {
        lemma_fixed_state(states, delays, i);
        assert(states[i].steps_to(delays[i], states[i + 1]));
    }
}

/// A fixed-interval strategy can always advance.
pub proof fn lemma_fixed_can_advance(s: FixedInterval)
    ensures
        s.can_advance(),
{
}

/// The delay of a fixed-interval strategy is fixed by its state.
pub proof fn lemma_fixed_determined(s: FixedInterval)
    ensures
        step_determined(s),
{
}

} // verus!
