//! Stonkam AVTP packet header (EtherType 0x0022) and the header embedded in
//! the JPEG data of a frame's first packet.
use vstd::prelude::*;
use crate::stonkam_avtp::error::{Result, StonkamAvtpError};

verus! {

/// The header of a Stonkam AVTP packet.
#[derive(Debug, Clone)]
pub struct StonkamAvtpHeader {
    pub raw_ethernet_frame: Vec<u8>,
    /// Bit 0 of byte 15: the packet starts a frame.
    pub frame_start: bool,
    /// Bit 4 of byte 36: the packet ends a frame.
    pub frame_end: bool,
    /// Bytes 34-35, big-endian.
    pub payload_len: u16,
    /// Bytes 14 to 33.
    pub reserved: [u8; 20],
}

/// The image parameters at the start of a frame's JPEG data.
#[derive(Debug, Clone)]
pub struct JpegEmbeddedHeader {
    pub qp: u8,
    pub width: u16,
    pub height: u16,
    pub rst_int: u16,
    pub rst_count: u16,
    pub raw: Vec<u8>,
}

/// Whether byte 15 marks a frame start.
pub open spec fn start_flag(f: Seq<u8>) -> bool {
    f[15] & 0x01 != 0
}

/// Whether byte 36 marks a frame end.
pub open spec fn end_flag(f: Seq<u8>) -> bool {
    f[36] & 0x10 != 0
}

/// The error, if any, of reading a packet header from `f`: too short for
/// the 38 header bytes, or an EtherType (bytes 12 and 13) other than 0x0022.
pub open spec fn header_error(f: Seq<u8>) -> Option<StonkamAvtpError> {
    if f.len() < 38 {
        Some(StonkamAvtpError::BufferTooShort { need: 38, got: f.len() as usize })
    } else if f[12] != 0x00 || f[13] != 0x22 {
        Some(StonkamAvtpError::InvalidEtherType((((f[12] as u16) << 8u16) | (f[13] as u16)) as u16))
    } else {
        None
    }
}

/// `h` is the header read from `f`.
pub open spec fn header_matches(f: Seq<u8>, h: StonkamAvtpHeader) -> bool {
    &&& h.raw_ethernet_frame@ == f
    &&& h.frame_start == start_flag(f)
    &&& h.frame_end == end_flag(f)
    &&& h.payload_len == (((f[34] as u16) << 8u16) | (f[35] as u16))
    &&& h.reserved@ == f.subrange(14, 34)
}

/// The JPEG data of a packet: everything after byte 38.
pub open spec fn jpeg_data_of(f: Seq<u8>) -> Seq<u8> {
    f.subrange(38, f.len() as int)
}

/// `h` holds the image parameters of the first 12 bytes of `d`: the width
/// and height in units of 8 pixels, the restart count in 10 bits.
pub open spec fn embedded_matches(d: Seq<u8>, h: JpegEmbeddedHeader) -> bool {
    &&& h.qp == d[5]
    &&& h.width == d[6] * 8
    &&& h.height == d[7] * 8
    &&& h.rst_int == (((d[8] as u16) << 8u16) | (d[9] as u16))
    &&& h.rst_count == ((((d[10] as u16) << 8u16) | (d[11] as u16)) & 0x3FFu16)
    &&& h.raw@ == d.subrange(0, 12)
}

impl StonkamAvtpHeader {
    /// Reads the packet header of an Ethernet frame, whose EtherType must
    /// be 0x0022.
    pub fn from_ethernet_frame(ethernet_frame: &[u8]) -> (r: Result<StonkamAvtpHeader>)
        ensures
            match r {
                Ok(h) => header_error(ethernet_frame@) is None && header_matches(ethernet_frame@, h),
                Err(e) => header_error(ethernet_frame@) == Some(e),
            },
    {
        if ethernet_frame.len() < 38 {
            return Err(StonkamAvtpError::BufferTooShort { need: 38, got: ethernet_frame.len() });
        }
        let high = ethernet_frame[12];
        let low = ethernet_frame[13];
        if high != 0x00 || low != 0x22 {
            return Err(StonkamAvtpError::InvalidEtherType(((high as u16) << 8u16) | (low as u16)));
        }
        let frame_start = (ethernet_frame[15] & 0x01) != 0;
        let frame_end = (ethernet_frame[36] & 0x10) != 0;
        let payload_len = ((ethernet_frame[34] as u16) << 8u16) | (ethernet_frame[35] as u16);
        let mut reserved = [0u8; 20];
        let mut k: usize = 0;
        while k < 20
            invariant
                k <= 20,
                ethernet_frame@.len() >= 38,
                forall|j: int| 0 <= j < k ==> reserved@[j] == ethernet_frame@[14 + j],
            decreases 20 - k,
        {
            reserved.set(k, ethernet_frame[14 + k]);
            k = k + 1;
        }
        assert(reserved@ =~= ethernet_frame@.subrange(14, 34));
        let raw_ethernet_frame = crate::wire::copy_range(ethernet_frame, 0, ethernet_frame.len());
        assert(raw_ethernet_frame@ =~= ethernet_frame@);
        Ok(StonkamAvtpHeader { raw_ethernet_frame, frame_start, frame_end, payload_len, reserved })
    }

    /// Offset of the JPEG data in a packet.
    pub fn jpeg_data_offset() -> (r: usize)
        ensures
            r == 38,
    {
        38
    }

    /// The JPEG data of a packet; a packet without any is too short.
    pub fn get_jpeg_data(ethernet_frame: &[u8]) -> (r: Result<&[u8]>)
        ensures
            match r {
                Ok(d) => ethernet_frame@.len() > 38 && d@ == jpeg_data_of(ethernet_frame@),
                Err(e) => ethernet_frame@.len() <= 38 && e == (StonkamAvtpError::BufferTooShort {
                    need: 39,
                    got: ethernet_frame@.len() as usize,
                }),
            },
    {
        let offset = Self::jpeg_data_offset();
        if ethernet_frame.len() <= offset {
            return Err(StonkamAvtpError::BufferTooShort { need: offset + 1, got: ethernet_frame.len() });
        }
        Ok(&ethernet_frame[offset..ethernet_frame.len()])
    }

    /// Reads the image parameters at the start of a frame's JPEG data.
    pub fn parse_jpeg_embedded_header(jpeg_data: &[u8]) -> (r: Result<JpegEmbeddedHeader>)
        ensures
            match r {
                Ok(h) => jpeg_data@.len() >= 12 && embedded_matches(jpeg_data@, h),
                Err(e) => jpeg_data@.len() < 12 && e == StonkamAvtpError::JpegDataTooShort(
                    jpeg_data@.len() as usize,
                ),
            },
    {
        if jpeg_data.len() < 12 {
            return Err(StonkamAvtpError::JpegDataTooShort(jpeg_data.len()));
        }
        let qp = jpeg_data[5];
        let width = (jpeg_data[6] as u16) * 8;
        let height = (jpeg_data[7] as u16) * 8;
        let rst_int = ((jpeg_data[8] as u16) << 8u16) | (jpeg_data[9] as u16);
        let rst_count = (((jpeg_data[10] as u16) << 8u16) | (jpeg_data[11] as u16)) & 0x3FF;
        Ok(JpegEmbeddedHeader {
            qp,
            width,
            height,
            rst_int,
            rst_count,
            raw: crate::wire::copy_range(jpeg_data, 0, 12),
        })
    }
}

impl JpegEmbeddedHeader {
    /// Offset of the entropy-coded data in a frame's JPEG data.
    pub fn entropy_data_offset() -> (r: usize)
        ensures
            r == 12,
    {
        12
    }
}

} // verus!
