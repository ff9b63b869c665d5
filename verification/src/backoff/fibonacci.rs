//! The Fibonacci strategy.
use vstd::prelude::*;
use crate::backoff::{is_run, step_determined, Backoff};
use crate::duration::{Duration, MAX_NANOS};

verus! {

/// Delay grows as the Fibonacci sequence. Sequence (unit=1s): 1, 1, 2, 3, 5, 8, 13, ...
pub struct FibonacciBackoff {
    a: Duration,
    b: Duration,
}

/// The Fibonacci numbers: 0, 1, 1, 2, 3, 5, 8, ...
pub open spec fn fib(n: nat) -> nat
    decreases n,
{
    if n == 0 {
        0
    } else if n == 1 {
        1
    } else {
        fib((n - 2) as nat) + fib((n - 1) as nat)
    }
}

/// The `k`-th term of the sequence that starts `a, b` and continues with the
/// sum of the two terms before.
pub open spec fn fib_from(a: nat, b: nat, k: nat) -> nat
    decreases k,
{
    if k == 0 {
        a
    } else {
        fib_from(b, a + b, (k - 1) as nat)
    }
}

impl FibonacciBackoff {
    /// The delay the next call yields.
    pub closed spec fn current(self) -> Duration {
        self.a
    }

    /// The delay the call after the next yields.
    pub closed spec fn upcoming(self) -> Duration {
        self.b
    }

    /// A strategy that yields `unit` times the Fibonacci numbers from the first:
    /// `unit, unit, 2 * unit, 3 * unit, 5 * unit, ...`
    pub fn new(unit: Duration) -> (r: Self)
        ensures
            r.current() == unit,
            r.upcoming() == unit,
    {
        FibonacciBackoff { a: unit, b: unit }
    }
}

impl Default for FibonacciBackoff {
    /// One-second unit.
    fn default() -> (r: Self)
        ensures
            r.current()@ == 1_000_000_000,
            r.upcoming()@ == 1_000_000_000,
    {
        Self::new(Duration::from_secs(1))
    }
}

impl Backoff for FibonacciBackoff {
    /// The term after the two held stays within range.
    open spec fn can_advance(self) -> bool {
        self.current()@ + self.upcoming()@ <= MAX_NANOS
    }

    open spec fn steps_to(self, delay: Option<Duration>, after: Self) -> bool {
        &&& delay == Some(self.current())
        &&& after.current() == self.upcoming()
        &&& after.upcoming()@ == self.current()@ + self.upcoming()@
    }

    fn next(&mut self) -> (delay: Option<Duration>) {
        let delay = self.a;
        let next = self.a.checked_add(self.b).unwrap();
        self.a = self.b;
        self.b = next;
        Some(delay)
    }

    fn check_advance(&self) -> (r: bool) {
        self.a.checked_add(self.b).is_some()
    }
}

/// Each term of the sequence is the sum of the two before.
pub proof fn lemma_fib_from_sum(a: nat, b: nat, k: nat)
    ensures
        fib_from(a, b, k + 2) == fib_from(a, b, k) + fib_from(a, b, k + 1),
    decreases k,
{
    if k > 0 {
        lemma_fib_from_sum(b, a + b, (k - 1) as nat);
        assert(fib_from(a, b, k + 2) == fib_from(b, a + b, k + 1));
        assert(fib_from(a, b, k + 1) == fib_from(b, a + b, k));
        assert(fib_from(a, b, k) == fib_from(b, a + b, (k - 1) as nat));
    } else {
        assert(fib_from(a, b, 1) == fib_from(b, a + b, 0));
        assert(fib_from(b, a + b, 1) == fib_from(a + b, b + (a + b), 0));
        assert(fib_from(a, b, 2) == fib_from(b, a + b, 1));
    }
}

/// The sequence that starts `unit, unit` is `unit` times the Fibonacci numbers.
pub proof fn lemma_fib_from_unit(unit: nat, k: nat)
    ensures
        fib_from(unit, unit, k) == unit * fib(k + 1),
    decreases k,
{
    if k == 0 {
        assert(fib(1) == 1);
    } else if k == 1 {
        assert(fib(2) == fib(0) + fib(1));
        assert(fib_from(unit, unit, 1) == fib_from(unit, unit + unit, 0));
    } else {
        lemma_fib_from_unit(unit, (k - 2) as nat);
        lemma_fib_from_unit(unit, (k - 1) as nat);
        lemma_fib_from_sum(unit, unit, (k - 2) as nat);
        let x = fib((k - 1) as nat);
        let y = fib(k);
        assert(fib(k + 1) == x + y);
        assert(unit * x + unit * y == unit * (x + y)) by (nonlinear_arith);
    }
}

/// After `k` calls the strategy holds terms `k` and `k + 1` of its sequence.
proof fn lemma_fibonacci_state(states: Seq<FibonacciBackoff>, delays: Seq<Option<Duration>>, k: int)
    requires
        is_run(states, delays),
        0 <= k <= delays.len(),
    ensures
        states[k].current()@ == fib_from(states[0].current()@, states[0].upcoming()@, k as nat),
        states[k].upcoming()@ == fib_from(
            states[0].current()@,
            states[0].upcoming()@,
            (k + 1) as nat,
        ),
    decreases k,
{
    let a = states[0].current()@;
    let b = states[0].upcoming()@;
    if k > 0 {
        lemma_fibonacci_state(states, delays, k - 1);
        assert(states[k - 1].steps_to(delays[k - 1], states[k]));
        lemma_fib_from_sum(a, b, (k - 1) as nat);
    } else {
        assert(fib_from(a, b, 1) == fib_from(b, a + b, 0));
    }
}

/// The delays of a Fibonacci strategy continue its sequence: the `i`-th is
/// term `i` of the sequence that starts with the two delays it holds, and,
/// for a strategy made by `new(unit)`, `unit * fib(i + 1)`.
pub proof fn lemma_fibonacci_run(states: Seq<FibonacciBackoff>, delays: Seq<Option<Duration>>)
    requires
        is_run(states, delays),
    ensures
        forall|i: int|
            #![trigger delays[i]]
            0 <= i < delays.len() ==> delays[i] is Some && delays[i]->0@ == fib_from(
                states[0].current()@,
                states[0].upcoming()@,
                i as nat,
            ),
        states[0].current() == states[0].upcoming() ==> forall|i: int|
            #![trigger delays[i]]
            0 <= i < delays.len() ==> delays[i] is Some && delays[i]->0@ == states[0].current()@
                * fib((i + 1) as nat),
{
    assert forall|i: int| 0 <= i < delays.len() implies #[trigger] delays[i] matches Some(d)
        && d@ == fib_from(states[0].current()@, states[0].upcoming()@, i as nat) by {
        lemma_fibonacci_state(states, delays, i);
        assert(states[i].steps_to(delays[i], states[i + 1]));
    }
    if states[0].current() == states[0].upcoming() {
        assert forall|i: int| 0 <= i < delays.len() implies #[trigger] delays[i] matches Some(d)
            && d@ == states[0].current()@ * fib((i + 1) as nat) by {
            lemma_fib_from_unit(states[0].current()@, i as nat);
        }
    }
}

/// A Fibonacci strategy can advance exactly when the next term of its
/// sequence, the sum of the two it holds, fits in a `Duration`.
pub proof fn lemma_fibonacci_can_advance(s: FibonacciBackoff)
    ensures
        s.can_advance() <==> s.current()@ + s.upcoming()@ <= MAX_NANOS,
{
}

/// The delay of a Fibonacci strategy is fixed by its state.
pub proof fn lemma_fibonacci_determined(s: FibonacciBackoff)
    ensures
        step_determined(s),
{
}

} // verus!
