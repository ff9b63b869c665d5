//! Named retry strategies.
use vstd::prelude::*;
use crate::duration::Duration;

verus! {

/// A retry strategy.
#[derive(Clone, Copy, Debug, PartialEq, Eq)]
pub enum RetryStrategy {
    /// Fixed interval delay.
    Fixed { interval: Duration, max_retries: u32 },
    /// Random delay.
    Random { max_retries: u32 },
    /// Growing delay.
    Backoff { max_retries: u32 },
}

} // verus!
