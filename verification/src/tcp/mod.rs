//! TCP messaging: connection settings and the messages exchanged.
//!
//! The connections themselves (sockets, framing, tasks) are I/O and live
//! outside this library; this module holds their settings and rules.
pub mod config;
pub mod message;
pub mod session;
