//! RTP errors.
use vstd::prelude::*;
use crate::text::{decimal_chars, decimal_text, push_chars, push_str_chars, string_from_chars};

verus! {

/// What can go wrong while reading RTP packets.
#[derive(Debug, Clone, PartialEq, Eq)]
pub enum RtpError {
    UnsupportedPayloadType(u8),
    ParseError(String),
    BufferTooShort { need: usize, got: usize },
}

/// The text shown for an error.
pub open spec fn rtp_error_text(e: RtpError) -> Seq<char> {
    match e {
        RtpError::UnsupportedPayloadType(pt) => "RTP payload type "@ + decimal_text(pt as nat)
            + " is not supported"@,
        RtpError::ParseError(m) => "RTP packet parse error: "@ + m@,
        RtpError::BufferTooShort { need, got } => "RTP buffer too short: need "@ + decimal_text(
            need as nat,
        ) + " bytes, got "@ + decimal_text(got as nat),
    }
}

impl RtpError {
    /// The message of the error.
    pub fn to_string(&self) -> (r: String)
        ensures
            r@ == rtp_error_text(*self),
    {
        let mut v: Vec<char> = Vec::new();
        match self {
            RtpError::UnsupportedPayloadType(pt) => {
                push_str_chars(&mut v, "RTP payload type ");
                let d = decimal_chars(*pt as u64);
                push_chars(&mut v, &d);
                push_str_chars(&mut v, " is not supported");
            },
            RtpError::ParseError(m) => {
                push_str_chars(&mut v, "RTP packet parse error: ");
                push_str_chars(&mut v, m.as_str());
            },
            RtpError::BufferTooShort { need, got } => {
                push_str_chars(&mut v, "RTP buffer too short: need ");
                let d = decimal_chars(*need as u64);
                push_chars(&mut v, &d);
                push_str_chars(&mut v, " bytes, got ");
                let d = decimal_chars(*got as u64);
                push_chars(&mut v, &d);
            },
        }
        string_from_chars(v)
    }
}

} // verus!
