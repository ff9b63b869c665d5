//! The linear strategy.
use vstd::prelude::*;
use crate::backoff::{is_run, step_determined, Backoff};
use crate::duration::{Duration, MAX_NANOS};

verus! {

/// Delay grows linearly with each retry. Sequence (base=1s, step=1s): 1, 2, 3, 4, 5, ...
pub struct LinearBackoff {
    current: Duration,
    step: Duration,
}

impl LinearBackoff {
    /// The delay the next call yields.
    pub closed spec fn current(self) -> Duration {
        self.current
    }

    /// The amount each delay exceeds the one before.
    pub closed spec fn step(self) -> Duration {
        self.step
    }

    /// A strategy that yields `base`, then `base + step`, `base + 2 * step`, ...
    pub fn new(base: Duration, step: Duration) -> (r: Self)
        ensures
            r.current() == base,
            r.step() == step,
    {
        LinearBackoff { current: base, step }
    }
}

impl Default for LinearBackoff {
    /// Starts at one second and grows by one second.
    fn default() -> (r: Self)
        ensures
            r.current()@ == 1_000_000_000,
            r.step()@ == 1_000_000_000,
    {
        LinearBackoff { current: Duration::from_secs(1), step: Duration::from_secs(1) }
    }
}

impl Backoff for LinearBackoff {
    /// The delay after the one yielded stays within range.
    open spec fn can_advance(self) -> bool {
        self.current()@ + self.step()@ <= MAX_NANOS
    }

    open spec fn steps_to(self, delay: Option<Duration>, after: Self) -> bool {
        &&& delay == Some(self.current())
        &&& after.current()@ == self.current()@ + self.step()@
        &&& after.step() == self.step()
    }

    fn next(&mut self) -> (delay: Option<Duration>) {
        let delay = self.current;
        self.current = self.current.checked_add(self.step).unwrap();
        Some(delay)
    }

    fn check_advance(&self) -> (r: bool) {
        self.current.checked_add(self.step).is_some()
    }
}

/// After `k` calls the strategy holds its first delay plus `k` steps.
proof fn lemma_linear_state(states: Seq<LinearBackoff>, delays: Seq<Option<Duration>>, k: int)
    requires
        is_run(states, delays),
        0 <= k <= delays.len(),
    ensures
        states[k].step() == states[0].step(),
        states[k].current()@ == states[0].current()@ + k * states[0].step()@,
    decreases k,
{
    if k > 0 {
        lemma_linear_state(states, delays, k - 1);
        assert(states[k - 1].steps_to(delays[k - 1], states[k]));
        let s = states[0].step()@;
        assert((k - 1) * s + s == k * s) by (nonlinear_arith);
    }
}

/// The `i`-th delay of a linear strategy is its first delay plus `i` steps.
pub proof fn lemma_linear_run(states: Seq<LinearBackoff>, delays: Seq<Option<Duration>>)
    requires
        is_run(states, delays),
    ensures
        forall|i: int|
            #![trigger delays[i]]
            0 <= i < delays.len() ==> delays[i] is Some && delays[i]->0@ == states[0].current()@ + i
                * states[0].step()@,
{
    assert forall|i: int| 0 <= i < delays.len() implies #[trigger] delays[i] matches Some(d)
        && d@ == states[0].current()@ + i * states[0].step()@ by {
        lemma_linear_state(states, delays, i);
        assert(states[i].steps_to(delays[i], states[i + 1]));
    }
}

/// A linear strategy can advance exactly when the delay after the next one,
/// the current delay plus the step, fits in a `Duration`.
pub proof fn lemma_linear_can_advance(s: LinearBackoff)
    ensures
        s.can_advance() <==> s.current()@ + s.step()@ <= MAX_NANOS,
{
}

/// The delay of a linear strategy is fixed by its state.
pub proof fn lemma_linear_determined(s: LinearBackoff)
    ensures
        step_determined(s),
{
}

} // verus!
