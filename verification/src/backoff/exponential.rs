//! The exponential strategy.
use vstd::prelude::*;
use vstd::arithmetic::power::pow;
use crate::backoff::{is_run, step_determined, Backoff};
use crate::duration::{Duration, MAX_NANOS};

verus! {

/// Delay is multiplied by a factor with each retry. Sequence (base=1s, factor=2): 1, 2, 4, 8, 16, ...
pub struct ExponentialBackoff {
    current: Duration,
    factor: u32,
}

impl ExponentialBackoff {
    /// The delay the next call yields.
    pub closed spec fn current(self) -> Duration {
        self.current
    }

    /// The factor each delay exceeds the one before by.
    pub closed spec fn factor(self) -> u32 {
        self.factor
    }

    /// A strategy that yields `base`, then `base * factor`, `base * factor^2`, ...
    pub fn new(base: Duration, factor: u32) -> (r: Self)
        ensures
            r.current() == base,
            r.factor() == factor,
    {
        ExponentialBackoff { current: base, factor }
    }
}

impl Default for ExponentialBackoff {
    /// Starts at one second and doubles.
    fn default() -> (r: Self)
        ensures
            r.current()@ == 1_000_000_000,
            r.factor() == 2,
    {
        ExponentialBackoff { current: Duration::from_secs(1), factor: 2 }
    }
}

impl Backoff for ExponentialBackoff {
    /// The delay after the one yielded stays within range.
    open spec fn can_advance(self) -> bool {
        self.current()@ * self.factor() <= MAX_NANOS
    }

    open spec fn steps_to(self, delay: Option<Duration>, after: Self) -> bool {
        &&& delay == Some(self.current())
        &&& after.current()@ == self.current()@ * self.factor()
        &&& after.factor() == self.factor()
    }

    fn next(&mut self) -> (delay: Option<Duration>) {
        let delay = self.current;
        self.current = self.current.checked_mul(self.factor).unwrap();
        Some(delay)
    }

    fn check_advance(&self) -> (r: bool) {
        self.current.checked_mul(self.factor).is_some()
    }
}

/// After `k` calls the strategy holds its first delay times `factor^k`.
proof fn lemma_exponential_state(
    states: Seq<ExponentialBackoff>,
    delays: Seq<Option<Duration>>,
    k: int,
)
    requires
        is_run(states, delays),
        0 <= k <= delays.len(),
    ensures
        states[k].factor() == states[0].factor(),
        states[k].current()@ == states[0].current()@ * pow(states[0].factor() as int, k as nat),
    decreases k,
{
    reveal(pow);
    if k > 0 {
        lemma_exponential_state(states, delays, k - 1);
        assert(states[k - 1].steps_to(delays[k - 1], states[k]));
        let c = states[0].current()@ as int;
        let f = states[0].factor() as int;
        let p = pow(f, (k - 1) as nat);
        assert(pow(f, k as nat) == f * p);
        assert((c * p) * f == c * (f * p)) by (nonlinear_arith);
    }
}

/// The `i`-th delay of an exponential strategy is its first delay times `factor^i`.
pub proof fn lemma_exponential_run(states: Seq<ExponentialBackoff>, delays: Seq<Option<Duration>>)
    requires
        is_run(states, delays),
    ensures
        forall|i: int|
            #![trigger delays[i]]
            0 <= i < delays.len() ==> delays[i] is Some && delays[i]->0@ == states[0].current()@
                * pow(states[0].factor() as int, i as nat),
{
    assert forall|i: int| 0 <= i < delays.len() implies #[trigger] delays[i] matches Some(d)
        && d@ == states[0].current()@ * pow(states[0].factor() as int, i as nat) by {
        lemma_exponential_state(states, delays, i);
        assert(states[i].steps_to(delays[i], states[i + 1]));
    }
}

/// An exponential strategy can advance exactly when the delay after the
/// next one, the current delay times the factor, fits in a `Duration`.
pub proof fn lemma_exponential_can_advance(s: ExponentialBackoff)
    ensures
        s.can_advance() <==> s.current()@ * s.factor() <= MAX_NANOS,
{
}

/// The delay of an exponential strategy is fixed by its state.
pub proof fn lemma_exponential_determined(s: ExponentialBackoff)
    ensures
        step_determined(s),
{
}

} // verus!
