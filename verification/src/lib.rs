//! A bounded, multi-producer multi-consumer asynchronous message channel,
//! together with a few small hand-written task state machines.
//!
//! The channel buffers messages up to a fixed capacity. Once the buffer is
//! full, send operations suspend until a message is received; once it is
//! empty, receive operations suspend until a message is sent. Dropping every
//! handle of one side closes the channel: senders then fail, and receivers
//! drain the remaining messages before failing. All shared state lives behind
//! one lock, and every lock-held operation carries an exact contract over a
//! mathematical view of the channel.

pub mod futures;
pub mod guards;
pub mod mpmc;
pub mod task;
pub mod writer;
