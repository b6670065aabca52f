//! SOME/IP error type.
use vstd::prelude::*;

verus! {

/// What can go wrong while encoding or decoding SOME/IP data.
#[derive(Debug, Clone, PartialEq, Eq)]
pub enum SomeIPError {
    /// The buffer is shorter than the `expected` number of bytes.
    InsufficientBuffer { expected: usize, actual: usize },
    /// No decoder is known for this method id.
    UnknownMethod(u16),
    /// A payload could not be encoded or decoded.
    CodecError(String),
    /// The text is not a dotted IPv4 address.
    InvalidIpAddress(String),
    /// The text is not a MAC address.
    InvalidMacAddress(String),
    /// A configuration file could not be read.
    ConfigError(String),
    /// A message type or return code did not match.
    ValidationError(String),
}

/// Result of a SOME/IP operation.
pub type SomeIPResult<T> = Result<T, SomeIPError>;

impl SomeIPError {
    /// The error for a buffer of `actual` bytes where `expected` were needed.
    pub fn insufficient_buffer(expected: usize, actual: usize) -> (r: SomeIPError)
        ensures
            r == (SomeIPError::InsufficientBuffer { expected, actual }),
    {
        SomeIPError::InsufficientBuffer { expected, actual }
    }

    /// A codec error carrying `msg`.
    pub fn codec_error(msg: String) -> (r: SomeIPError)
        ensures
            r == SomeIPError::CodecError(msg),
    {
        SomeIPError::CodecError(msg)
    }
}

} // verus!
