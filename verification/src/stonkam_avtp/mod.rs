//! Stonkam AVTP video packets: JPEG frames over EtherType 0x0022.
pub mod error;
pub mod header;
pub mod parser;
pub mod consts;
