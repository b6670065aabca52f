//! Errors of the Stonkam AVTP parser.
use vstd::prelude::*;

verus! {

/// What can go wrong while parsing Stonkam AVTP packets.
#[derive(Debug, Clone, PartialEq, Eq)]
pub enum StonkamAvtpError {
    BufferTooShort { need: usize, got: usize },
    InvalidEtherType(u16),
    InvalidFrameFlags { start: u8, end: u8 },
    JpegDataTooShort(usize),
    JpegDecodeError(String),
    PacketOrderError { expected: String, actual: String },
    InvalidImageParameter { param: String, value: u32 },
    PcapError(String),
}

/// Result of a Stonkam AVTP operation.
pub type Result<T> = core::result::Result<T, StonkamAvtpError>;

} // verus!
