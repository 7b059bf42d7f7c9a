//! A concurrent circuit breaker.
//!
//! Calls are observed through a fixed-size window of recent outcomes. Once the
//! failure rate of that window reaches a threshold the breaker opens and rejects
//! calls; after a waiting time it lets a probe window through, which either closes
//! it again or reopens it.
//!
//! - [`RingBuffer`]: the window of outcomes and its failure count.
//! - [`Breaker`]: the three-state machine, one step per permit check or report.
//! - [`Recloser`]: a breaker shared between threads, which wraps calls.
pub mod breaker;
pub mod error;
pub mod rate;
pub mod recloser;
pub mod ring_buffer;

pub use crate::breaker::{Breaker, Config, ConstantWait, Phase, Status, WaitStrategy};
pub use crate::error::{AnyError, Error, ErrorPredicate};
pub use crate::rate::Ratio;
pub use crate::recloser::{Recloser, RecloserBuilder};
pub use crate::ring_buffer::{to_int, RingBuffer};
