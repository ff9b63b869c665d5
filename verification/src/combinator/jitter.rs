//! Randomizing each delay.
use vstd::prelude::*;
use rand::Rng;
use crate::backoff::{is_run, Backoff};
use crate::duration::{Duration, MAX_NANOS, NANOS_PER_SEC};

verus! {

/// Calls `rand::thread_rng().gen_range(0..=max)`. Its contract states what
/// holds of every outcome, as the source of `gen_range` for `u128` shows: the
/// sample lies in `0..=max`. Which value comes is chance and is not stated,
/// nor that the thread's generator could fail to seed from the system.
#[verifier::external_body]
fn random_nanos_up_to(max: u128) -> (r: u128)
    ensures
        r <= max,
{
    rand::thread_rng().gen_range(0..=max)
}

/// `x` nanoseconds is a sample the random source can return when asked
/// for one within `0..=bound`.
pub closed spec fn drawn_up_to(bound: nat, x: nat) -> bool {
    x <= u128::MAX && call_ensures(random_nanos_up_to, (bound as u128,), x as u128)
}

/// A random span in `[0, max]`: the sample the random source returns for
/// bound `max`, taken as nanoseconds.
fn random_duration_inclusive(max: Duration) -> (r: Duration)
    ensures
        r@ <= max@,
        drawn_up_to(max@, r@),
{
    let m = max.as_nanos();
    let nanos = random_nanos_up_to(m);
    assert(m == max@ as u128);
    assert(call_ensures(random_nanos_up_to, (max@ as u128,), nanos));
    duration_from_nanos(nanos)
}

/// The span of `nanos` nanoseconds. The whole seconds are cut to 64 bits;
/// a count within the range of `Duration` is kept exactly.
pub fn duration_from_nanos(nanos: u128) -> (r: Duration)
    ensures
        r@ == ((nanos / NANOS_PER_SEC) as u64) * NANOS_PER_SEC + nanos % NANOS_PER_SEC,
        nanos <= MAX_NANOS ==> r@ == nanos,
{
    let secs: u64 = (nanos / NANOS_PER_SEC) as u64;
    let subsec: u32 = (nanos % NANOS_PER_SEC) as u32;
    proof {
        if nanos <= MAX_NANOS {
            assert(nanos / NANOS_PER_SEC <= u64::MAX);
            assert(nanos == (nanos / NANOS_PER_SEC) * NANOS_PER_SEC + nanos % NANOS_PER_SEC);
        }
    }
    Duration::new(secs, subsec)
}

/// Half the span, rounded down to the nanosecond.
pub fn duration_div_2(duration: Duration) -> (r: Duration)
    ensures
        r@ == duration@ / 2,
        duration@ <= MAX_NANOS,
{
    duration_from_nanos(duration.as_nanos() / 2)
}

/// `delay` is `inner_delay` made random within `[0, inner_delay]`: the
/// sample the random source returns for that bound; `None` passes through.
pub open spec fn full_jittered(inner_delay: Option<Duration>, delay: Option<Duration>) -> bool {
    match inner_delay {
        None => delay is None,
        Some(d) => delay is Some && delay->0@ <= d@ && drawn_up_to(d@, delay->0@),
    }
}

/// `delay` is `inner_delay` made random within `[half, 2 * half]`, where `half`
/// is `inner_delay` halved and rounded down: `half` plus the sample the random
/// source returns for bound `half`; `None` passes through.
pub open spec fn equal_jittered(inner_delay: Option<Duration>, delay: Option<Duration>) -> bool {
    match inner_delay {
        None => delay is None,
        Some(d) => delay is Some && d@ / 2 <= delay->0@ <= d@ / 2 + d@ / 2 && drawn_up_to(
            d@ / 2,
            (delay->0@ - d@ / 2) as nat,
        ),
    }
}

/// Full Jitter: randomizes each delay within `[0, delay]`.
///
/// Best for spreading retries across clients; commonly used with exponential backoff.
pub struct FullJitter<I> {
    inner: I,
}

impl<I> FullJitter<I> {
    /// The wrapped strategy.
    pub closed spec fn inner(self) -> I {
        self.inner
    }

    /// Wraps a strategy with Full Jitter.
    pub fn new(inner: I) -> (r: Self)
        ensures
            r.inner() == inner,
    {
        FullJitter { inner }
    }
}

impl<I: Backoff> Backoff for FullJitter<I> {
    open spec fn can_advance(self) -> bool {
        self.inner().can_advance()
    }

    open spec fn steps_to(self, delay: Option<Duration>, after: Self) -> bool {
        exists|inner_delay: Option<Duration>|
            #[trigger] self.inner().steps_to(inner_delay, after.inner()) && full_jittered(
                inner_delay,
                delay,
            )
    }

    fn next(&mut self) -> (delay: Option<Duration>) {
        let ghost before = *self;
        let inner_delay = self.inner.next();
        assert(before.inner().steps_to(inner_delay, self.inner()));
        match inner_delay {
            Some(d) => Some(random_duration_inclusive(d)),
            None => None,
        }
    }

    fn check_advance(&self) -> (r: bool) {
        self.inner.check_advance()
    }
}

/// Equal Jitter: randomizes each delay within `[delay / 2, delay]`.
///
/// Keeps at least half of each delay, for a minimum wait.
pub struct EqualJitter<I> {
    inner: I,
}

impl<I> EqualJitter<I> {
    /// The wrapped strategy.
    pub closed spec fn inner(self) -> I {
        self.inner
    }

    /// Wraps a strategy with Equal Jitter.
    pub fn new(inner: I) -> (r: Self)
        ensures
            r.inner() == inner,
    {
        EqualJitter { inner }
    }
}

impl<I: Backoff> Backoff for EqualJitter<I> {
    open spec fn can_advance(self) -> bool {
        self.inner().can_advance()
    }

    open spec fn steps_to(self, delay: Option<Duration>, after: Self) -> bool {
        exists|inner_delay: Option<Duration>|
            #[trigger] self.inner().steps_to(inner_delay, after.inner()) && equal_jittered(
                inner_delay,
                delay,
            )
    }

    fn next(&mut self) -> (delay: Option<Duration>) {
        let ghost before = *self;
        let inner_delay = self.inner.next();
        assert(before.inner().steps_to(inner_delay, self.inner()));
        match inner_delay {
            Some(d) => {
                let half = duration_div_2(d);
                let extra = random_duration_inclusive(half);
                Some(half.checked_add(extra).unwrap())
            },
            None => None,
        }
    }

    fn check_advance(&self) -> (r: bool) {
        self.inner.check_advance()
    }
}

/// Over any number of calls the strategy that Full Jitter wraps passes
/// through a run of its own; a delay is yielded exactly when that strategy
/// yields one, and lies between zero and it.
pub proof fn lemma_full_jitter_run<I: Backoff>(
    states: Seq<FullJitter<I>>,
    delays: Seq<Option<Duration>>,
) -> (inner_delays: Seq<Option<Duration>>)
    requires
        is_run(states, delays),
    ensures
        is_run(states.map_values(|s: FullJitter<I>| s.inner()), inner_delays),
        forall|i: int|
            #![trigger delays[i]]
            0 <= i < delays.len() ==> full_jittered(inner_delays[i], delays[i]),
        forall|i: int|
            #![trigger delays[i]]
            0 <= i < delays.len() ==> (delays[i] is Some <==> inner_delays[i] is Some),
        forall|i: int|
            #![trigger delays[i]]
            0 <= i < delays.len() && delays[i] is Some ==> delays[i]->0@ <= inner_delays[i]->0@,
{
    let inners = states.map_values(|s: FullJitter<I>| s.inner());
    let inner_delays = Seq::new(
        delays.len(),
        |i: int|
            choose|d: Option<Duration>|
                #[trigger] states[i].inner().steps_to(d, states[i + 1].inner()) && full_jittered(
                    d,
                    delays[i],
                ),
    );
    assert forall|i: int| 0 <= i < delays.len() implies #[trigger] inners[i].steps_to(
        inner_delays[i],
        inners[i + 1],
    ) && full_jittered(inner_delays[i], delays[i]) by {
        assert(states[i].steps_to(delays[i], states[i + 1]));
    }
    assert forall|i: int| #![trigger delays[i]] 0 <= i < delays.len() implies full_jittered(
        inner_delays[i],
        delays[i],
    ) by {
        assert(inners[i].steps_to(inner_delays[i], inners[i + 1]));
    }
    inner_delays
}

/// Over any number of calls the strategy that Equal Jitter wraps passes
/// through a run of its own; a delay is yielded exactly when that strategy
/// yields one, keeps at least half of it and exceeds none of it.
pub proof fn lemma_equal_jitter_run<I: Backoff>(
    states: Seq<EqualJitter<I>>,
    delays: Seq<Option<Duration>>,
) -> (inner_delays: Seq<Option<Duration>>)
    requires
        is_run(states, delays),
    ensures
        is_run(states.map_values(|s: EqualJitter<I>| s.inner()), inner_delays),
        forall|i: int|
            #![trigger delays[i]]
            0 <= i < delays.len() ==> equal_jittered(inner_delays[i], delays[i]),
        forall|i: int|
            #![trigger delays[i]]
            0 <= i < delays.len() && delays[i] is Some ==> inner_delays[i]->0@ / 2
                <= delays[i]->0@ <= inner_delays[i]->0@,
        forall|i: int|
            #![trigger delays[i]]
            0 <= i < delays.len() ==> (delays[i] is Some <==> inner_delays[i] is Some),
{
    let inners = states.map_values(|s: EqualJitter<I>| s.inner());
    let inner_delays = Seq::new(
        delays.len(),
        |i: int|
            choose|d: Option<Duration>|
                #[trigger] states[i].inner().steps_to(d, states[i + 1].inner()) && equal_jittered(
                    d,
                    delays[i],
                ),
    );
    assert forall|i: int| 0 <= i < delays.len() implies #[trigger] inners[i].steps_to(
        inner_delays[i],
        inners[i + 1],
    ) && equal_jittered(inner_delays[i], delays[i]) by {
        assert(states[i].steps_to(delays[i], states[i + 1]));
    }
    assert forall|i: int| #![trigger delays[i]] 0 <= i < delays.len() implies equal_jittered(
        inner_delays[i],
        delays[i],
    ) by {
        assert(inners[i].steps_to(inner_delays[i], inners[i + 1]));
    }
    inner_delays
}

/// A strategy with Full Jitter can advance exactly when the strategy it
/// wraps can.
pub proof fn lemma_full_jitter_can_advance<I: Backoff>(s: FullJitter<I>)
    ensures
        s.can_advance() <==> s.inner().can_advance(),
{
}

/// A strategy with Equal Jitter can advance exactly when the strategy it
/// wraps can.
pub proof fn lemma_equal_jitter_can_advance<I: Backoff>(s: EqualJitter<I>)
    ensures
        s.can_advance() <==> s.inner().can_advance(),
{
}

} // verus!
