//! Session engine for a line-oriented debugger pipe.
//!
//! The library models a pool of debugger sessions: each session owns one
//! external process reached through text pipes, commands are framed by a
//! marker line scanned out of the output stream, and a registry keys the
//! live sessions by their target so they can be shared and closed safely.

pub mod cdb;
pub mod error;
pub mod protocol;
pub mod server;
pub mod session;
pub mod text;
pub mod tools;
pub mod types;
pub mod utils;
