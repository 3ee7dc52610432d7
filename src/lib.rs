//! Named-pipe listening for asynchronous servers, as verified decision logic.
//!
//! The security objects a pipe is created with, the sequence of system calls
//! that builds them, and the accept cycle of a listener are modelled here as
//! plain values and state machines with proved contracts. A runtime performs
//! the system calls each machine asks for and reports their outcomes back.
pub mod config;
pub mod error;
pub mod secattr;
pub mod server;
pub mod setup;
