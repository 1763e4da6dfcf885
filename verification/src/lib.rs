//! An unbounded multi-producer, multi-consumer channel.
//!
//! Values travel through a lock-free queue; idle consumers sleep on a
//! generation counter and are woken by producers or by the close of the
//! channel, which happens when the last [`Sender`] is dropped.
//!
//! A receive call is one round: it delivers, reports the channel closed, or
//! reports it idle together with the generation it saw. A consumer that
//! wants to wait calls [`Receiver::sleep`] with that generation and asks
//! again.

pub mod channel;
pub mod labels;
pub mod model;
pub mod protocol;
pub mod queue;
pub mod signal;

pub use channel::{channel, Receiver, Sender};
pub use labels::generate_data;
pub use protocol::{Attempt, Wake};
