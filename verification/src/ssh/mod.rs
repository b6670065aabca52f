//! Remote files over SSH and SFTP: the values exchanged with the user
//! interface and the rules on remote paths and names.
//!
//! The sessions and transfers themselves are network I/O and live outside
//! this library.
pub mod types;
pub mod paths;
pub mod commands;
