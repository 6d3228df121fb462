//! The bounded multi-producer multi-consumer channel.
//!
//! [`chan`] holds the shared channel state and its lock-held operations,
//! [`handle`] the reference-counted `Sender` / `Receiver` endpoints, and
//! [`laws`] the proved properties that relate several operations.

pub mod chan;
pub mod handle;
pub mod laws;

pub use chan::{Channel, ChannelRecvError, ChannelSendError, ChannelView};
pub use handle::{channel, ChannelClosedError, Receiver, RecvPoll, Sender, SendPoll};
