//! Decision logic of a one-byte remote-control daemon.
//!
//! A client connects over TCP and sends a single byte. The byte that equals
//! the configured magic value asks the host to suspend itself; every other
//! byte is reported as an unknown command. Nothing is ever sent back.
//!
//! The library touches no socket and runs no command. It decides, and leaves
//! the doing to its host:
//!
//! - [`config`] holds the magic byte and the listen address;
//! - [`command`] classifies a byte;
//! - [`text`] and [`log`] render the lines of the log;
//! - [`processor`] is the state machine that handles one connection;
//! - [`listener`] is the state machine that binds and accepts;
//! - [`session`] says what the handling of one connection amounts to;
//! - [`server`] says the same of many connections at once.

pub mod command;
pub mod config;
pub mod listener;
pub mod log;
pub mod processor;
pub mod server;
pub mod session;
pub mod text;
