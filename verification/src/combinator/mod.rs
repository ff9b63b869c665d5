//! Combinators that wrap a strategy and change the delays it yields.
pub mod jitter;
pub mod max_delay;
pub mod take;

pub use jitter::{EqualJitter, FullJitter};
pub use max_delay::MaxDelay;
pub use take::Take;
