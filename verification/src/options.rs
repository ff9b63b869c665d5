//! Retry settings.
use vstd::prelude::*;
use crate::duration::Duration;

verus! {

/// Settings of a retry loop.
#[allow(dead_code)]
pub struct Config {
    attempts: usize,
    delay: Duration,
    max_delay: Duration,
    max_jitter: Duration,
}

} // verus!
