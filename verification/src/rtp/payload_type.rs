//! Well-known RTP payload type numbers.
use vstd::prelude::*;

verus! {

pub const PCMU: u8 = 0;

pub const PCMA: u8 = 8;

pub const G722: u8 = 9;

pub const L16_STEREO: u8 = 10;

pub const L16_MONO: u8 = 11;

pub const CN: u8 = 13;

pub const MPA: u8 = 14;

pub const H263: u8 = 34;

pub const H264: u8 = 96;

pub const H265: u8 = 97;

pub const VP8: u8 = 98;

pub const VP9: u8 = 99;

pub const OPUS: u8 = 100;

pub const DYNAMIC_MIN: u8 = 96;

pub const DYNAMIC_MAX: u8 = 127;

} // verus!
