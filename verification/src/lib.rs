//! An unbounded channel with many senders and one receiver, built on a mutex,
//! a condition variable and two atomic counters.
//!
//! [`unbounded`] makes a channel and returns its two ends. A [`Sender`] can be
//! cloned and sends without ever waiting; the [`Receiver`] waits while nothing
//! is queued and a sender is alive. Items arrive in the order in which they
//! were queued.
pub mod channel;
pub mod error;
pub mod laws;
pub mod model;
pub mod queue;
pub mod sync;

pub use channel::unbounded;
pub use channel::Receiver;
pub use channel::Sender;
pub use channel::Shared;
pub use error::ChannelError;
