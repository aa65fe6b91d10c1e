//! Decisions of a retry run: a delay strategy hands out wait durations, and a driver
//! decides, each time it is resumed, whether to start a new attempt, poll the
//! in-flight action or its timer, suspend, or finish.
use vstd::prelude::*;

pub mod delay;
pub mod error;
pub mod retry;
pub mod strategy;

pub use delay::{Delay, ToDuration};
pub use error::Exhausted;
pub use retry::{retry, Retry, RetryState, Stage, Step};
pub use strategy::{Backoff, Explicit, Exponential, Fibonacci, Fixed, NoDelay};

verus! {

} // verus!
