//! RTP packets (RFC 3550).
use vstd::prelude::*;
use crate::rtp::error::RtpError;
use crate::shared_bytes::{bytes_copy_from_slice, bytes_view};
use crate::text::{push_str_chars, string_from_chars};
use crate::wire::{get_be16, get_be32, read_be16, read_be32};

verus! {

/// The fixed and contributing-source part of an RTP header.
#[derive(Debug, Clone)]
pub struct RtpHeader {
    pub version: u8,
    pub padding: bool,
    pub extension: bool,
    pub marker: bool,
    pub payload_type: u8,
    pub sequence_number: u16,
    pub timestamp: u32,
    pub ssrc: u32,
    pub csrcs: Vec<u32>,
}

/// An RTP packet: its header and its payload without padding.
#[derive(Debug, Clone)]
pub struct RtpPacket {
    pub header: RtpHeader,
    pub payload: bytes::Bytes,
}

/// The name of a static payload type (RFC 3551); 96 to 127 are dynamic.
pub open spec fn payload_type_text(pt: u8) -> Seq<char> {
    if pt == 0 {
        "PCMU"@
    } else if pt == 1 {
        "1016"@
    } else if pt == 2 {
        "G721"@
    } else if pt == 3 {
        "GSM"@
    } else if pt == 4 {
        "G723"@
    } else if pt == 5 {
        "DVI4_8k"@
    } else if pt == 6 {
        "DVI4_16k"@
    } else if pt == 7 {
        "LPC"@
    } else if pt == 8 {
        "PCMA"@
    } else if pt == 9 {
        "G722"@
    } else if pt == 10 {
        "L16_STEREO"@
    } else if pt == 11 {
        "L16_MONO"@
    } else if pt == 12 {
        "QCELP"@
    } else if pt == 13 {
        "CN"@
    } else if pt == 14 {
        "MPA"@
    } else if pt == 15 {
        "G728"@
    } else if pt == 16 {
        "DVI4_11k"@
    } else if pt == 17 {
        "DVI4_22k"@
    } else if pt == 18 {
        "G729"@
    } else if pt == 25 {
        "CelB"@
    } else if pt == 26 {
        "JPEG"@
    } else if pt == 28 {
        "nv"@
    } else if pt == 31 {
        "H261"@
    } else if pt == 32 {
        "MPV"@
    } else if pt == 33 {
        "MP2T"@
    } else if pt == 34 {
        "H263"@
    } else if 96 <= pt <= 127 {
        "Dynamic"@
    } else {
        "Unknown"@
    }
}

/// The name of an RTP payload type.
pub fn payload_type_name(pt: u8) -> (r: &'static str)
    ensures
        r@ == payload_type_text(pt),
{
    match pt {
        0 => "PCMU",
        1 => "1016",
        2 => "G721",
        3 => "GSM",
        4 => "G723",
        5 => "DVI4_8k",
        6 => "DVI4_16k",
        7 => "LPC",
        8 => "PCMA",
        9 => "G722",
        10 => "L16_STEREO",
        11 => "L16_MONO",
        12 => "QCELP",
        13 => "CN",
        14 => "MPA",
        15 => "G728",
        16 => "DVI4_11k",
        17 => "DVI4_22k",
        18 => "G729",
        25 => "CelB",
        26 => "JPEG",
        28 => "nv",
        31 => "H261",
        32 => "MPV",
        33 => "MP2T",
        34 => "H263",
        96..=127 => "Dynamic",
        _ => "Unknown",
    }
}

/// Offset after the fixed header and the contributing sources.
pub open spec fn csrc_end(data: Seq<u8>) -> int {
    12 + 4 * (data[0] & 0x0F) as int
}

/// Offset of the payload: after the contributing sources and, where the
/// extension bit is set, after the extension header and its words.
pub open spec fn payload_start(data: Seq<u8>) -> int {
    let c = csrc_end(data);
    if (data[0] >> 4u8) & 1 != 0 {
        c + 4 + 4 * get_be16(data, c + 2)
    } else {
        c
    }
}

/// The error of parsing `data`, if any.
pub open spec fn rtp_error(data: Seq<u8>) -> Option<RtpError> {
    if data.len() < 12 {
        Some(RtpError::BufferTooShort { need: 12, got: data.len() as usize })
    } else if data.len() < csrc_end(data) {
        Some(RtpError::BufferTooShort { need: csrc_end(data) as usize, got: data.len() as usize })
    } else if (data[0] >> 4u8) & 1 != 0 && data.len() < csrc_end(data) + 4 {
        Some(RtpError::BufferTooShort { need: (csrc_end(data) + 4) as usize, got: data.len() as usize })
    } else if data.len() < payload_start(data) {
        Some(RtpError::BufferTooShort { need: payload_start(data) as usize, got: data.len() as usize })
    } else {
        None
    }
}

/// The padding count in the last byte exceeds the bytes after the headers.
pub open spec fn bad_padding(data: Seq<u8>) -> bool {
    (data[0] >> 5u8) & 1 != 0 && data.last() > data.len() - payload_start(data)
}

/// The payload end: before the padding where the padding bit is set.
pub open spec fn payload_end(data: Seq<u8>) -> int {
    if (data[0] >> 5u8) & 1 != 0 {
        data.len() - data.last()
    } else {
        data.len() as int
    }
}

/// `p` is the packet that `data` encodes.
pub open spec fn rtp_matches(data: Seq<u8>, p: RtpPacket) -> bool {
    let h = p.header;
    &&& h.version == (data[0] >> 6u8) & 3
    &&& h.padding == ((data[0] >> 5u8) & 1 != 0)
    &&& h.extension == ((data[0] >> 4u8) & 1 != 0)
    &&& h.marker == ((data[1] >> 7u8) & 1 != 0)
    &&& h.payload_type == data[1] & 0x7F
    &&& h.sequence_number == get_be16(data, 2)
    &&& h.timestamp == get_be32(data, 4)
    &&& h.ssrc == get_be32(data, 8)
    &&& h.csrcs@ == Seq::new((data[0] & 0x0F) as nat, |i: int| get_be32(data, 12 + 4 * i))
    &&& bytes_view(p.payload) == data.subrange(payload_start(data), payload_end(data))
}

fn too_short(need: usize, got: usize) -> (r: Result<RtpPacket, RtpError>)
    ensures
        r matches Err(e) && e == (RtpError::BufferTooShort { need, got }),
{
    Err(RtpError::BufferTooShort { need, got })
}

impl RtpPacket {
    /// Parses an RTP packet: fixed header, contributing sources, optional
    /// extension (skipped) and payload without padding.
    pub fn from_bytes(data: &[u8]) -> (r: Result<RtpPacket, RtpError>)
        ensures
            match r {
                Ok(p) => rtp_error(data@) is None && !bad_padding(data@) && rtp_matches(data@, p),
                Err(e) => (rtp_error(data@) matches Some(x) && e == x) || (rtp_error(data@) is None
                    && bad_padding(data@) && (e matches RtpError::ParseError(m) && m@
                    == "invalid padding size"@)),
            },
    {
        if data.len() < 12 {
            return too_short(12, data.len());
        }
        let b0 = data[0];
        let version = (b0 >> 6u8) & 0x03;
        let padding = ((b0 >> 5u8) & 0x01) != 0;
        let extension = ((b0 >> 4u8) & 0x01) != 0;
        let csrc_count = (b0 & 0x0f) as usize;
        let b1 = data[1];
        let marker = ((b1 >> 7u8) & 0x01) != 0;
        let payload_type = b1 & 0x7f;
        let sequence_number = read_be16(data, 2);
        let timestamp = read_be32(data, 4);
        let ssrc = read_be32(data, 8);
        let header_end = 12 + csrc_count * 4;
        if data.len() < header_end {
            return too_short(header_end, data.len());
        }
        let mut csrcs: Vec<u32> = Vec::new();
        let mut k: usize = 0;
        while k < csrc_count
            invariant
                k <= csrc_count,
                csrc_count == (data@[0] & 0x0F) as usize,
                12 + csrc_count * 4 <= data@.len(),
                csrcs@ =~= Seq::new(k as nat, |i: int| get_be32(data@, 12 + 4 * i)),
            decreases csrc_count - k,
        {
            csrcs.push(read_be32(data, 12 + 4 * k));
            k = k + 1;
        }
        let mut offset = header_end;
        if extension {
            if data.len() < offset + 4 {
                return too_short(offset + 4, data.len());
            }
            let ext_len = (read_be16(data, offset + 2) as usize) * 4;
            offset = offset + 4 + ext_len;
            if data.len() < offset {
                return too_short(offset, data.len());
            }
        }
        let payload_end: usize = if padding {
            let pad_size = data[data.len() - 1] as usize;
            if pad_size > data.len() - offset {
                let mut cs: Vec<char> = Vec::new();
                push_str_chars(&mut cs, "invalid padding size");
                return Err(RtpError::ParseError(string_from_chars(cs)));
            }
            data.len() - pad_size
        } else {
            data.len()
        };
        let payload = bytes_copy_from_slice(&data[offset..payload_end]);
        Ok(RtpPacket {
            header: RtpHeader {
                version,
                padding,
                extension,
                marker,
                payload_type,
                sequence_number,
                timestamp,
                ssrc,
                csrcs,
            },
            payload,
        })
    }
}

proof fn lemma_header_bits(b0: u8, b1: u8)
    ensures
        (b0 >> 6u8) & 3 == b0 / 64,
        ((b0 >> 5u8) & 1 != 0) == ((b0 / 32) % 2 == 1),
        ((b0 >> 4u8) & 1 != 0) == ((b0 / 16) % 2 == 1),
        b0 & 0x0F == b0 % 16,
        ((b1 >> 7u8) & 1 != 0) == (b1 >= 128),
        b1 & 0x7F == b1 % 128,
{
    assert((b0 >> 6u8) & 3 == b0 / 64 && ((b0 >> 5u8) & 1 != 0) == ((b0 / 32) % 2 == 1) && ((b0
        >> 4u8) & 1 != 0) == ((b0 / 16) % 2 == 1) && b0 & 0x0F == b0 % 16 && ((b1 >> 7u8) & 1 != 0)
        == (b1 >= 128) && b1 & 0x7F == b1 % 128) by (bit_vector);
}

/// A parsed packet's fixed header is read from the first 12 bytes as RFC
/// 3550 lays it out: the version in the top two bits of byte 0, then the
/// padding and extension bits, the contributing-source count in the low
/// four bits; the marker in the top bit of byte 1 and the payload type in
/// the rest; the sequence number in bytes 2-3, the timestamp in bytes 4-7
/// and the synchronisation source in bytes 8-11, all big-endian; the
/// contributing sources follow, four bytes each.
pub proof fn lemma_rtp_fixed_header(data: Seq<u8>, p: RtpPacket)
    requires
        rtp_error(data) is None,
        rtp_matches(data, p),
    ensures
        p.header.version == data[0] / 64,
        p.header.padding == ((data[0] / 32) % 2 == 1),
        p.header.extension == ((data[0] / 16) % 2 == 1),
        p.header.csrcs.len() == data[0] % 16,
        p.header.marker == (data[1] >= 128),
        p.header.payload_type == data[1] % 128,
        p.header.sequence_number == data[2] as int * 256 + data[3] as int,
        p.header.timestamp == data[4] as int * 16777216 + data[5] as int * 65536 + data[6] as int * 256
            + data[7] as int,
        p.header.ssrc == data[8] as int * 16777216 + data[9] as int * 65536 + data[10] as int * 256
            + data[11] as int,
        forall|i: int|
            0 <= i < data[0] % 16 ==> #[trigger] p.header.csrcs@[i] == data[12 + 4 * i] as int * 16777216
                + data[13 + 4 * i] as int * 65536 + data[14 + 4 * i] as int * 256 + data[15 + 4 * i] as int,
{
    lemma_header_bits(data[0], data[1]);
    crate::wire::lemma_get_be16_digits(data, 2);
    crate::wire::lemma_get_be32_digits(data, 4);
    crate::wire::lemma_get_be32_digits(data, 8);
    assert forall|i: int|
        0 <= i < data[0] % 16 implies #[trigger] p.header.csrcs@[i] == data[12 + 4 * i] as int * 16777216
            + data[13 + 4 * i] as int * 65536 + data[14 + 4 * i] as int * 256 + data[15 + 4 * i] as int by {
        crate::wire::lemma_get_be32_digits(data, 12 + 4 * i);
    }
}

} // verus!
