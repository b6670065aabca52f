//! Constants of the Stonkam AVTP format.
use vstd::prelude::*;

verus! {

pub const ETHER_TYPE: u16 = 0x0022;

/// Bytes of the packet header after the Ethernet header.
pub const HEADER_SIZE: usize = 24;

/// Bytes of the image parameters at the start of a frame's JPEG data.
pub const JPEG_EMBEDDED_HEADER_SIZE: usize = 12;

pub const ETHERNET_HEADER_SIZE: usize = 14;

/// Largest frame kept by default: 5 MiB.
pub const DEFAULT_MAX_FRAME_SIZE: usize = 5242880;

} // verus!
