//! Runtime discovery of optional terminal-emulator capabilities.
//!
//! A process can ask the attached terminal whether it supports progressive
//! keyboard-enhancement reporting, synchronized-output batching, and
//! light/dark theme signaling, by sending escape-sequence probes and
//! interpreting the asynchronous replies that come back on the shared input
//! stream. The crate provides the event model and filters used to pick each
//! query's replies out of that stream, the raw-mode state machine that makes
//! synchronous blocking queries possible, and the negotiation protocols
//! built on both. The blocking poll/read primitives and the terminal device
//! itself are consumed through interfaces; deterministic in-memory
//! implementations of those interfaces are included.

pub mod error;
pub mod event;
pub mod filter;
pub mod query;
pub mod raw;
pub mod sim;
pub mod size;
pub mod source;
pub mod tty;
