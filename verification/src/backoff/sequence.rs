//! A finite list of delays used as a strategy.
use vstd::prelude::*;
use crate::backoff::{is_run, step_determined, Backoff};
use crate::duration::Duration;

verus! {

/// A list of delays yields its items in order, then `None` from then on.
impl Backoff for Vec<Duration> {
    open spec fn can_advance(self) -> bool {
        true
    }

    open spec fn steps_to(self, delay: Option<Duration>, after: Self) -> bool {
        if self@.len() == 0 {
            &&& delay is None
            &&& after@ == self@
        } else {
            &&& delay == Some(self@[0])
            &&& after@ == self@.drop_first()
        }
    }

    fn next(&mut self) -> (delay: Option<Duration>) {
        if self.len() == 0 {
            None
        } else {
            Some(self.remove(0))
        }
    }

    fn check_advance(&self) -> (r: bool) {
        true
    }
}

/// After `k` calls a list holds its items from the `k`-th on.
proof fn lemma_list_state(states: Seq<Vec<Duration>>, delays: Seq<Option<Duration>>, k: int)
    requires
        is_run(states, delays),
        0 <= k <= delays.len(),
    ensures
        states[k]@ == if k <= states[0]@.len() { states[0]@.skip(k) } else { Seq::empty() },
    decreases k,
{
    if k > 0 {
        lemma_list_state(states, delays, k - 1);
        assert(states[k - 1].steps_to(delays[k - 1], states[k]));
        if k <= states[0]@.len() {
            assert(states[0]@.skip(k - 1).drop_first() =~= states[0]@.skip(k));
        }
    }
}

/// A list yields its items in order and `None` once they are used up.
pub proof fn lemma_list_run(states: Seq<Vec<Duration>>, delays: Seq<Option<Duration>>)
    requires
        is_run(states, delays),
    ensures
        forall|i: int|
            #![trigger delays[i]]
            0 <= i < delays.len() ==> delays[i] == if i < states[0]@.len() {
                Some(states[0]@[i])
            } else {
                None
            },
{
    assert forall|i: int| 0 <= i < delays.len() implies #[trigger] delays[i] == if i
        < states[0]@.len() {
        Some(states[0]@[i])
    } else {
        None
    } by {
        lemma_list_state(states, delays, i);
        assert(states[i].steps_to(delays[i], states[i + 1]));
    }
}

/// A list of delays can always advance.
pub proof fn lemma_list_can_advance(s: Vec<Duration>)
    ensures
        s.can_advance(),
{
}

/// The delay of a list is fixed by the items it holds.
pub proof fn lemma_list_determined(s: Vec<Duration>)
    ensures
        step_determined(s),
{
}

} // verus!
