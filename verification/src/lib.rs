//! Retry helpers built around backoff strategies that yield the delay to wait
//! before each retry.
pub mod backoff;
pub mod combinator;
pub mod constant;
pub mod duration;
pub mod error;
pub mod options;
pub mod retry;

pub use duration::Duration;
pub use retry::{RetryAction, RetryState};
