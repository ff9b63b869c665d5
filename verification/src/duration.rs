//! A span of time with nanosecond precision.
//!
//! The type holds the total number of nanoseconds, bounded by the largest span
//! that `std::time::Duration` can represent, so that a value converts to and
//! from the standard type without loss.
use vstd::prelude::*;

verus! {

/// Nanoseconds in one second.
pub const NANOS_PER_SEC: u128 = 1_000_000_000;

/// The largest number of nanoseconds a `Duration` holds:
/// `u64::MAX` whole seconds and `999_999_999` nanoseconds.
pub const MAX_NANOS: u128 = 18_446_744_073_709_551_615_999_999_999;

/// A span of time, counted in nanoseconds.
#[derive(Clone, Copy, PartialEq, Eq, PartialOrd, Ord, Hash, Debug)]
pub struct Duration {
    nanos: u128,
}

impl View for Duration {
    type V = nat;

    /// The span in nanoseconds.
    closed spec fn view(&self) -> nat {
        self.nanos as nat
    }
}

impl Duration {
    #[verifier::type_invariant]
    closed spec fn in_range(self) -> bool {
        self.nanos <= MAX_NANOS
    }

    /// The empty span.
    pub fn zero() -> (r: Duration)
        ensures
            r@ == 0,
    {
        Duration { nanos: 0 }
    }

    /// A span of `secs` whole seconds.
    pub fn from_secs(secs: u64) -> (r: Duration)
        ensures
            r@ == secs * NANOS_PER_SEC,
    {
        Duration { nanos: secs as u128 * NANOS_PER_SEC }
    }

    /// A span of `millis` milliseconds.
    pub fn from_millis(millis: u64) -> (r: Duration)
        ensures
            r@ == millis * 1_000_000,
    {
        Duration { nanos: millis as u128 * 1_000_000 }
    }

    /// A span of `micros` microseconds.
    pub fn from_micros(micros: u64) -> (r: Duration)
        ensures
            r@ == micros * 1_000,
    {
        Duration { nanos: micros as u128 * 1_000 }
    }

    /// A span of `nanos` nanoseconds.
    pub fn from_nanos(nanos: u64) -> (r: Duration)
        ensures
            r@ == nanos,
    {
        Duration { nanos: nanos as u128 }
    }

    /// `secs` seconds plus `nanos` nanoseconds; nanoseconds beyond one
    /// second carry over into the seconds, which must not overflow.
    pub fn new(secs: u64, nanos: u32) -> (r: Duration)
        requires
            secs + (nanos as int) / 1_000_000_000 <= u64::MAX,
        ensures
            r@ == secs * NANOS_PER_SEC + nanos,
    {
        proof {
            let q = (nanos as int) / 1_000_000_000;
            let m = (nanos as int) % 1_000_000_000;
            assert(nanos == q * 1_000_000_000 + m && 0 <= m < 1_000_000_000);
            assert(secs * 1_000_000_000 + nanos == (secs + q) * 1_000_000_000 + m);
        }
        let total: u128 = secs as u128 * NANOS_PER_SEC + nanos as u128;
        Duration { nanos: total }
    }

    /// The whole span in nanoseconds.
    pub fn as_nanos(&self) -> (r: u128)
        ensures
            r == self@,
            r <= MAX_NANOS,
    {
        proof {
            use_type_invariant(self);
        }
        self.nanos
    }

    /// The number of whole seconds in the span.
    pub fn as_secs(&self) -> (r: u64)
        ensures
            r == self@ / (NANOS_PER_SEC as nat),
    {
        proof {
            use_type_invariant(self);
        }
        (self.nanos / NANOS_PER_SEC) as u64
    }

    /// The nanoseconds beyond the whole seconds of the span.
    pub fn subsec_nanos(&self) -> (r: u32)
        ensures
            r == self@ % (NANOS_PER_SEC as nat),
            r < NANOS_PER_SEC,
    {
        (self.nanos % NANOS_PER_SEC) as u32
    }

    /// The sum of two spans, or `None` where it exceeds the range of `Duration`.
    pub fn checked_add(self, other: Duration) -> (r: Option<Duration>)
        ensures
            r is Some <==> self@ + other@ <= MAX_NANOS,
            r matches Some(d) ==> d@ == self@ + other@,
    {
        proof {
            use_type_invariant(&self);
            use_type_invariant(&other);
        }
        let sum: u128 = self.nanos + other.nanos;
        if sum <= MAX_NANOS {
            Some(Duration { nanos: sum })
        } else {
            None
        }
    }

    /// The span multiplied by `factor`, or `None` where the product exceeds
    /// the range of `Duration`.
    pub fn checked_mul(self, factor: u32) -> (r: Option<Duration>)
        ensures
            r is Some <==> self@ * factor <= MAX_NANOS,
            r matches Some(d) ==> d@ == self@ * factor,
    {
        proof {
            use_type_invariant(&self);
        }
        match self.nanos.checked_mul(factor as u128) {
            Some(product) => {
                if product <= MAX_NANOS {
                    Some(Duration { nanos: product })
                } else {
                    None
                }
            },
            None => {
                proof {
                    assert(self.nanos * factor > u128::MAX);
                }
                None
            },
        }
    }

    /// The shorter of the two spans.
    pub fn min(self, other: Duration) -> (r: Duration)
        ensures
            r@ == if self@ <= other@ { self@ } else { other@ },
    {
        if self.nanos <= other.nanos {
            self
        } else {
            other
        }
    }
}

} // verus!
