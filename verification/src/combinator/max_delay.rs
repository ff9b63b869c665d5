//! Capping each delay.
use vstd::prelude::*;
use crate::backoff::{is_run, Backoff};
use crate::duration::Duration;

verus! {

/// Caps each delay so that none exceeds the maximum.
pub struct MaxDelay<I> {
    inner: I,
    max: Duration,
}

/// `delay` is `inner_delay` capped at `max`; `None` passes through.
pub open spec fn capped(inner_delay: Option<Duration>, max: Duration, delay: Option<Duration>) -> bool {
    match inner_delay {
        None => delay is None,
        Some(d) => delay is Some && delay->0@ == if d@ <= max@ { d@ } else { max@ },
    }
}

impl<I> MaxDelay<I> {
    /// The wrapped strategy.
    pub closed spec fn inner(self) -> I {
        self.inner
    }

    /// The cap on each delay.
    pub closed spec fn max(self) -> Duration {
        self.max
    }

    /// Wraps `inner`, capping any delay that exceeds `max`.
    pub fn new(inner: I, max: Duration) -> (r: Self)
        ensures
            r.inner() == inner,
            r.max() == max,
    {
        MaxDelay { inner, max }
    }
}

impl<I: Backoff> Backoff for MaxDelay<I> {
    open spec fn can_advance(self) -> bool {
        self.inner().can_advance()
    }

    open spec fn steps_to(self, delay: Option<Duration>, after: Self) -> bool {
        &&& after.max() == self.max()
        &&& exists|inner_delay: Option<Duration>|
            #[trigger] self.inner().steps_to(inner_delay, after.inner()) && capped(
                inner_delay,
                self.max(),
                delay,
            )
    }

    fn next(&mut self) -> (delay: Option<Duration>) {
        let ghost before = *self;
        let inner_delay = self.inner.next();
        assert(before.inner().steps_to(inner_delay, self.inner()));
        match inner_delay {
            Some(d) => Some(d.min(self.max)),
            None => None,
        }
    }

    fn check_advance(&self) -> (r: bool) {
        self.inner.check_advance()
    }
}

/// A capped strategy keeps its cap over any number of calls.
proof fn lemma_max_delay_state<I: Backoff>(
    states: Seq<MaxDelay<I>>,
    delays: Seq<Option<Duration>>,
    k: int,
)
    requires
        is_run(states, delays),
        0 <= k <= delays.len(),
    ensures
        states[k].max() == states[0].max(),
    decreases k,
{
    if k > 0 {
        lemma_max_delay_state(states, delays, k - 1);
        assert(states[k - 1].steps_to(delays[k - 1], states[k]));
    }
}

/// Over any number of calls the strategy that a cap wraps passes through a
/// run of its own, and each delay is that strategy's delay capped: a delay
/// is yielded exactly when the wrapped strategy yields one; one at most the
/// cap passes unchanged, a longer one becomes the cap; so no delay exceeds
/// the cap.
pub proof fn lemma_max_delay_run<I: Backoff>(
    states: Seq<MaxDelay<I>>,
    delays: Seq<Option<Duration>>,
) -> (inner_delays: Seq<Option<Duration>>)
    requires
        is_run(states, delays),
    ensures
        is_run(states.map_values(|s: MaxDelay<I>| s.inner()), inner_delays),
        forall|i: int|
            #![trigger delays[i]]
            0 <= i < delays.len() ==> capped(inner_delays[i], states[0].max(), delays[i]),
        forall|i: int|
            #![trigger delays[i]]
            0 <= i < delays.len() && delays[i] is Some ==> delays[i]->0@ <= states[0].max()@,
        forall|i: int|
            #![trigger delays[i]]
            0 <= i < delays.len() ==> (delays[i] is Some <==> inner_delays[i] is Some),
        forall|i: int|
            #![trigger delays[i]]
            0 <= i < delays.len() && inner_delays[i] is Some && inner_delays[i]->0@
                <= states[0].max()@ ==> delays[i]->0@ == inner_delays[i]->0@,
        forall|i: int|
            #![trigger delays[i]]
            0 <= i < delays.len() && inner_delays[i] is Some && inner_delays[i]->0@
                > states[0].max()@ ==> delays[i]->0@ == states[0].max()@,
{
    let inners = states.map_values(|s: MaxDelay<I>| s.inner());
    let inner_delays = Seq::new(
        delays.len(),
        |i: int|
            choose|d: Option<Duration>|
                #[trigger] states[i].inner().steps_to(d, states[i + 1].inner()) && capped(
                    d,
                    states[i].max(),
                    delays[i],
                ),
    );
    assert forall|i: int| 0 <= i < delays.len() implies #[trigger] inners[i].steps_to(
        inner_delays[i],
        inners[i + 1],
    ) && capped(inner_delays[i], states[0].max(), delays[i]) by {
        assert(states[i].steps_to(delays[i], states[i + 1]));
        lemma_max_delay_state(states, delays, i);
    }
    assert forall|i: int| #![trigger delays[i]] 0 <= i < delays.len() implies capped(
        inner_delays[i],
        states[0].max(),
        delays[i],
    ) by {
        assert(inners[i].steps_to(inner_delays[i], inners[i + 1]));
    }
    inner_delays
}

/// A capped strategy can advance exactly when the strategy it wraps can.
pub proof fn lemma_max_delay_can_advance<I: Backoff>(s: MaxDelay<I>)
    ensures
        s.can_advance() <==> s.inner().can_advance(),
{
}

} // verus!
