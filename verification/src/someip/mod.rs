//! SOME/IP messages for camera configuration.
pub mod method;
pub mod error;
pub mod header;
pub mod entry;
pub mod payload;
pub mod util;
pub mod ipv4;
pub mod message;
