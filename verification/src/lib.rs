//! Decision core of an interactive terminal-multiplexer client session.
//!
//! The session merges three independently timed event sources — terminal
//! input, OS process-control signals, and protocol frames arriving over a
//! local socket — into one ordered stream, and guarantees that the terminal
//! device is returned to its original state on every exit path.
//!
//! This crate holds the verified logic of that session: the classification
//! of input events, the signal-bridge forwarding rules, the terminal-mode
//! lifecycle, and the dispatcher state machine. All device and socket I/O is
//! expressed as data (`DeviceOp`, `Effect`) that an unverified driver
//! executes.

pub mod bridge;
pub mod dispatcher;
pub mod events;
pub mod terminal;
