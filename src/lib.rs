//! A screen recorder's core: a capture loop paced to a fixed schedule, a
//! bounded channel that drops frames rather than stall the producer, an
//! encoder sink that closes the encoder's input exactly once, a tailer that
//! follows an event helper's append-only log by byte offset, and the session
//! lifecycle that supervises them.

pub mod channel;
pub mod queue;
pub mod pacing;
pub mod sink;
pub mod tailer;
pub mod text;
pub mod session;
pub mod recording;
