//! The decision logic of a TCP port forwarder.
//!
//! The forwarder listens on one address and relays every inbound
//! connection to a fixed target. This crate holds everything that is decided
//! rather than performed: which identifier a session gets, what a copy loop
//! does with the outcome of a read or a write, when a session is over and
//! how it ended, how a listen argument is read, and which colour a session's
//! log lines carry. The sockets and the terminal are
//! driven by the program around it.

pub mod address;
pub mod copy_loop;
pub mod dispatcher;
pub mod palette;
pub mod relay;
pub mod report;
pub mod session_id;
pub mod traces;
