//! Reassembly of JPEG frames from Stonkam AVTP packets.
use vstd::prelude::*;
use crate::stonkam_avtp::error::{Result, StonkamAvtpError};
use crate::stonkam_avtp::header::{
    JpegEmbeddedHeader, StonkamAvtpHeader, embedded_matches, end_flag, header_error, jpeg_data_of,
    start_flag,
};
use crate::text::{push_str_chars, string_from_chars};
use crate::wire::push_all;

verus! {

#[verifier::external_type_specification]
#[verifier::external_body]
pub struct ExSystemTime(std::time::SystemTime);

/// The standard luminance quantisation table (ITU-T T.81, annex K).
pub open spec fn luma_base() -> Seq<u32> {
    seq![
        16, 11, 10, 16, 24, 40, 51, 61, 12, 12, 14, 19, 26, 58, 60, 55, 14, 13, 16, 24, 40, 57,
        69, 56, 14, 17, 22, 29, 51, 87, 80, 62, 18, 22, 37, 56, 68, 109, 103, 77, 24, 35, 55, 64,
        81, 104, 113, 92, 49, 64, 78, 87, 103, 121, 120, 101, 72, 92, 95, 98, 112, 100, 103, 99,
    ]
}

/// The standard chrominance quantisation table (ITU-T T.81, annex K).
pub open spec fn chroma_base() -> Seq<u32> {
    seq![
        17, 18, 24, 47, 99, 99, 99, 99, 18, 21, 26, 66, 99, 99, 99, 99, 24, 26, 56, 99, 99, 99,
        99, 99, 47, 66, 99, 99, 99, 99, 99, 99, 99, 99, 99, 99, 99, 99, 99, 99, 99, 99, 99, 99,
        99, 99, 99, 99, 99, 99, 99, 99, 99, 99, 99, 99, 99, 99, 99, 99, 99, 99, 99, 99,
    ]
}

/// The percentage by which a quality `qp` (1 to 100) scales the tables.
pub open spec fn quality_scale(qp: u8) -> u32 {
    if qp < 50 {
        5000u32 / (qp as u32)
    } else {
        (200 - 2 * (qp as u32)) as u32
    }
}

/// One scaled table entry, rounded and kept within 1 to 255.
pub open spec fn scaled_entry(q: u32, qf: u32) -> u8 {
    let v = (q * qf + 50) / 100;
    if v < 1 {
        1
    } else if v > 255 {
        255
    } else {
        v as u8
    }
}

/// A table scaled for quality `qp`.
pub open spec fn scaled_table(base: Seq<u32>, qp: u8) -> Seq<u8> {
    Seq::new(64, |i: int| scaled_entry(base[i], quality_scale(qp)))
}

/// The JPEG header written before a frame's entropy-coded data: JFIF APP0,
/// the two scaled quantisation tables, a baseline frame header with 4:2:0
/// sampling, and the scan header.
pub open spec fn jfif_header(width: u16, height: u16, qp: u8) -> Seq<u8> {
    seq![0xFFu8, 0xE0, 0x00, 0x10, 0x4A, 0x46, 0x49, 0x46, 0x00, 0x01, 0x01, 0x00, 0x00, 0x01, 0x00, 0x01, 0x00, 0x00]
        + seq![0xFFu8, 0xDB, 0x00, 0x84, 0x00] + scaled_table(luma_base(), qp) + seq![0x01u8]
        + scaled_table(chroma_base(), qp) + seq![0xFFu8, 0xC0, 0x00, 0x11, 0x08] + seq![
        (height >> 8u16) as u8,
        (height & 0xFFu16) as u8,
        (width >> 8u16) as u8,
        (width & 0xFFu16) as u8,
    ] + seq![0x03u8, 0x01, 0x22, 0x00, 0x02, 0x11, 0x01, 0x03, 0x11, 0x01] + seq![
        0xFFu8,
        0xDA,
        0x00,
        0x0C,
        0x03,
        0x01,
        0x00,
        0x02,
        0x11,
        0x03,
        0x11,
        0x00,
        0x3F,
        0x00,
    ]
}

/// Reassembles JPEG frames from the packets of one stream.
pub struct StonkamAvtpParser {
    jpeg_buffer: Vec<u8>,
    receiving_frame: bool,
    frame_count: u32,
    packet_count: u32,
    dropped_frames: u32,
    max_frame_size: usize,
}

/// The state of a parser: the bytes of the frame under way, whether one is
/// under way, the frames, packets and dropped frames counted, and the limit.
pub struct ParserState {
    pub buffer: Seq<u8>,
    pub receiving: bool,
    pub frames: u32,
    pub packets: u32,
    pub dropped: u32,
    pub max_frame_size: usize,
}

/// The state after a packet completes or continues the frame `b`.
pub open spec fn finish_step(
    s: ParserState,
    b: Seq<u8>,
    packets: u32,
    dropped: u32,
    f: Seq<u8>,
    n: ParserState,
    r: Result<Option<Vec<u8>>>,
) -> bool {
    if end_flag(f) {
        (r matches Ok(Some(out)) && out@ == b) && n == ParserState {
            buffer: Seq::empty(),
            receiving: false,
            frames: s.frames.wrapping_add(1),
            packets,
            dropped,
            ..s
        }
    } else {
        r matches Ok(None) && n == ParserState { buffer: b, receiving: true, packets, dropped, ..s }
    }
}

/// What one packet `f` does: `n` is the state after it and `r` the result.
pub open spec fn parse_step(s: ParserState, f: Seq<u8>, n: ParserState, r: Result<Option<Vec<u8>>>) -> bool {
    match header_error(f) {
        Some(e) => r matches Err(x) && x == e && n == s,
        None => if f.len() <= 38 {
            (r matches Err(x) && x == (StonkamAvtpError::BufferTooShort {
                need: 39,
                got: f.len() as usize,
            })) && n == s
        } else {
            let d = jpeg_data_of(f);
            let packets = s.packets.wrapping_add(1);
            if start_flag(f) {
                let dropped = if s.receiving {
                    s.dropped.wrapping_add(1)
                } else {
                    s.dropped
                };
                let kept = if s.receiving {
                    Seq::empty()
                } else {
                    s.buffer
                };
                if d.len() < 12 {
                    (r matches Err(x) && x == StonkamAvtpError::JpegDataTooShort(d.len() as usize))
                        && n == ParserState { buffer: kept, packets, dropped, ..s }
                } else if d[6] == 0 || d[7] == 0 {
                    (r matches Err(StonkamAvtpError::InvalidImageParameter { param, value }) && param@
                        == "width/height"@ && value == 0) && n == ParserState {
                        buffer: kept,
                        packets,
                        dropped,
                        ..s
                    }
                } else if d[5] == 0 || d[5] > 100 {
                    (r matches Err(StonkamAvtpError::InvalidImageParameter { param, value }) && param@
                        == "qp"@ && value == d[5] as u32) && n == ParserState {
                        buffer: kept,
                        packets,
                        dropped,
                        ..s
                    }
                } else {
                    finish_step(
                        s,
                        jfif_header((d[6] * 8) as u16, (d[7] * 8) as u16, d[5]) + d.subrange(
                            12,
                            d.len() as int,
                        ),
                        packets,
                        dropped,
                        f,
                        n,
                        r,
                    )
                }
            } else if !s.receiving {
                (r matches Err(StonkamAvtpError::PacketOrderError { expected, actual }) && expected@
                    == "起始包"@ && actual@ == "中间包或结束包"@) && n == ParserState { packets, ..s }
            } else if s.buffer.len() + d.len() > s.max_frame_size {
                (r matches Err(StonkamAvtpError::InvalidImageParameter { param, value }) && param@
                    == "frame_size"@ && value == d.len() as u32) && n == ParserState {
                    buffer: Seq::empty(),
                    receiving: false,
                    packets,
                    dropped: s.dropped.wrapping_add(1),
                    ..s
                }
            } else {
                finish_step(s, s.buffer + d, packets, s.dropped, f, n, r)
            }
        },
    }
}

fn string_of(t: &str) -> (r: String)
    ensures
        r@ == t@,
{
    let mut cs: Vec<char> = Vec::new();
    push_str_chars(&mut cs, t);
    string_from_chars(cs)
}

fn scale_table(base: &[u32; 64], qf: u32) -> (r: Vec<u8>)
    requires
        qf <= 5000,
        forall|i: int| 0 <= i < 64 ==> base@[i] <= 200,
    ensures
        r@ == Seq::new(64, |i: int| scaled_entry(base@[i], qf)),
{
    let mut out: Vec<u8> = Vec::new();
    let mut i: usize = 0;
    while i < 64
        invariant
            i <= 64,
            qf <= 5000,
            forall|j: int| 0 <= j < 64 ==> base@[j] <= 200,
            out@ =~= Seq::new(i as nat, |j: int| scaled_entry(base@[j], qf)),
        decreases 64 - i,
    {
        let q = base[i];
        assert(q * qf <= 200 * 5000) by (nonlinear_arith)
            requires
                q <= 200,
                qf <= 5000,
        ;
        let v = (q * qf + 50) / 100;
        let e: u8 = if v < 1 {
            1
        } else if v > 255 {
            255
        } else {
            v as u8
        };
        out.push(e);
        i = i + 1;
    }
    out
}

impl StonkamAvtpParser {
    pub closed spec fn state(&self) -> ParserState {
        ParserState {
            buffer: self.jpeg_buffer@,
            receiving: self.receiving_frame,
            frames: self.frame_count,
            packets: self.packet_count,
            dropped: self.dropped_frames,
            max_frame_size: self.max_frame_size,
        }
    }

    /// A parser with nothing received, keeping frames of up to 5 MiB.
    pub fn new() -> (r: StonkamAvtpParser)
        ensures
            r.state() == (ParserState {
                buffer: Seq::empty(),
                receiving: false,
                frames: 0,
                packets: 0,
                dropped: 0,
                max_frame_size: 5242880,
            }),
    {
        StonkamAvtpParser {
            jpeg_buffer: Vec::new(),
            receiving_frame: false,
            frame_count: 0,
            packet_count: 0,
            dropped_frames: 0,
            max_frame_size: 5 * 1024 * 1024,
        }
    }

    /// A parser with nothing received, keeping frames of up to
    /// `max_frame_size` bytes.
    pub fn with_config(max_frame_size: usize) -> (r: StonkamAvtpParser)
        ensures
            r.state() == (ParserState {
                buffer: Seq::empty(),
                receiving: false,
                frames: 0,
                packets: 0,
                dropped: 0,
                max_frame_size,
            }),
    {
        StonkamAvtpParser {
            jpeg_buffer: Vec::new(),
            receiving_frame: false,
            frame_count: 0,
            packet_count: 0,
            dropped_frames: 0,
            max_frame_size,
        }
    }

    /// Takes one packet; gives the whole JPEG frame when the packet ends one.
    pub fn parse_packet(&mut self, ethernet_frame: &[u8], _timestamp: std::time::SystemTime) -> (r:
        Result<Option<Vec<u8>>>)
        ensures
            parse_step(old(self).state(), ethernet_frame@, final(self).state(), r),
    {
        let header = match StonkamAvtpHeader::from_ethernet_frame(ethernet_frame) {
            Ok(h) => h,
            Err(e) => {
                return Err(e);
            },
        };
        let jpeg_data = match StonkamAvtpHeader::get_jpeg_data(ethernet_frame) {
            Ok(d) => d,
            Err(e) => {
                return Err(e);
            },
        };
        self.packet_count = self.packet_count.wrapping_add(1);
        if header.frame_start {
            if self.receiving_frame {
                self.dropped_frames = self.dropped_frames.wrapping_add(1);
                self.jpeg_buffer.clear();
            }
            let embedded = match StonkamAvtpHeader::parse_jpeg_embedded_header(jpeg_data) {
                Ok(h) => h,
                Err(e) => {
                    return Err(e);
                },
            };
            let jpeg_header = match Self::generate_jpeg_header(&embedded) {
                Ok(h) => h,
                Err(e) => {
                    return Err(e);
                },
            };
            self.jpeg_buffer = jpeg_header;
            self.receiving_frame = true;
            if jpeg_data.len() > 12 {
                push_all(&mut self.jpeg_buffer, &jpeg_data[12..jpeg_data.len()]);
            } else {
                assert(jpeg_data@.subrange(12, jpeg_data@.len() as int) =~= Seq::<u8>::empty());
                assert(self.jpeg_buffer@ =~= self.jpeg_buffer@ + Seq::<u8>::empty());
            }
        } else {
            if !self.receiving_frame {
                return Err(
                    StonkamAvtpError::PacketOrderError {
                        expected: string_of("起始包"),
                        actual: string_of("中间包或结束包"),
                    },
                );
            }
            if (self.jpeg_buffer.len() as u128) + (jpeg_data.len() as u128) > self.max_frame_size as u128 {
                self.dropped_frames = self.dropped_frames.wrapping_add(1);
                self.reset();
                return Err(
                    StonkamAvtpError::InvalidImageParameter {
                        param: string_of("frame_size"),
                        value: jpeg_data.len() as u32,
                    },
                );
            }
            push_all(&mut self.jpeg_buffer, jpeg_data);
        }
        if header.frame_end {
            self.receiving_frame = false;
            self.frame_count = self.frame_count.wrapping_add(1);
            let complete_frame = crate::wire::copy_range(
                self.jpeg_buffer.as_slice(),
                0,
                self.jpeg_buffer.len(),
            );
            assert(complete_frame@ =~= self.jpeg_buffer@);
            self.jpeg_buffer.clear();
            return Ok(Some(complete_frame));
        }
        Ok(None)
    }

    /// The JPEG header for a frame's image parameters; a zero width or
    /// height is refused, then a quality outside 1 to 100.
    fn generate_jpeg_header(embedded: &JpegEmbeddedHeader) -> (r: Result<Vec<u8>>)
        ensures
            match r {
                Ok(h) => embedded.width != 0 && embedded.height != 0 && 1 <= embedded.qp <= 100
                    && h@ == jfif_header(embedded.width, embedded.height, embedded.qp),
                Err(e) => if embedded.width == 0 || embedded.height == 0 {
                    e matches StonkamAvtpError::InvalidImageParameter { param, value } && param@
                        == "width/height"@ && value == 0
                } else {
                    !(1 <= embedded.qp <= 100) && (e matches StonkamAvtpError::InvalidImageParameter {
                        param,
                        value,
                    } && param@ == "qp"@ && value == embedded.qp as u32)
                },
            },
    {
        if embedded.width == 0 || embedded.height == 0 {
            return Err(
                StonkamAvtpError::InvalidImageParameter { param: string_of("width/height"), value: 0 },
            );
        }
        if embedded.qp == 0 || embedded.qp > 100 {
            return Err(
                StonkamAvtpError::InvalidImageParameter { param: string_of("qp"), value: embedded.qp as u32 },
            );
        }
        let mut header: Vec<u8> = Vec::new();
        let app0: [u8; 18] = [
            0xFF,
            0xE0,
            0x00,
            0x10,
            0x4A,
            0x46,
            0x49,
            0x46,
            0x00,
            0x01,
            0x01,
            0x00,
            0x00,
            0x01,
            0x00,
            0x01,
            0x00,
            0x00,
        ];
        push_all(&mut header, app0.as_slice());
        let (quant_luma, quant_chroma) = Self::generate_quantization_tables(embedded.qp);
        let dqt: [u8; 5] = [0xFF, 0xDB, 0x00, 0x84, 0x00];
        push_all(&mut header, dqt.as_slice());
        push_all(&mut header, quant_luma.as_slice());
        header.push(0x01);
        push_all(&mut header, quant_chroma.as_slice());
        let sof: [u8; 5] = [0xFF, 0xC0, 0x00, 0x11, 0x08];
        push_all(&mut header, sof.as_slice());
        let h = embedded.height;
        let w = embedded.width;
        let dims: [u8; 4] = [(h >> 8u16) as u8, (h & 0xFF) as u8, (w >> 8u16) as u8, (w & 0xFF) as u8];
        push_all(&mut header, dims.as_slice());
        let comps: [u8; 10] = [0x03, 0x01, 0x22, 0x00, 0x02, 0x11, 0x01, 0x03, 0x11, 0x01];
        push_all(&mut header, comps.as_slice());
        let sos: [u8; 14] = [
            0xFF,
            0xDA,
            0x00,
            0x0C,
            0x03,
            0x01,
            0x00,
            0x02,
            0x11,
            0x03,
            0x11,
            0x00,
            0x3F,
            0x00,
        ];
        push_all(&mut header, sos.as_slice());
        assert(header@ =~= jfif_header(w, h, embedded.qp));
        Ok(header)
    }

    /// The two quantisation tables scaled for quality `qp` (1 to 100).
    fn generate_quantization_tables(qp: u8) -> (r: (Vec<u8>, Vec<u8>))
        requires
            1 <= qp <= 100,
        ensures
            r.0@ == scaled_table(luma_base(), qp),
            r.1@ == scaled_table(chroma_base(), qp),
    {
        let luma: [u32; 64] = [
            16, 11, 10, 16, 24, 40, 51, 61, 12, 12, 14, 19, 26, 58, 60, 55, 14, 13, 16, 24, 40,
            57, 69, 56, 14, 17, 22, 29, 51, 87, 80, 62, 18, 22, 37, 56, 68, 109, 103, 77, 24, 35,
            55, 64, 81, 104, 113, 92, 49, 64, 78, 87, 103, 121, 120, 101, 72, 92, 95, 98, 112, 100,
            103, 99,
        ];
        let chroma: [u32; 64] = [
            17, 18, 24, 47, 99, 99, 99, 99, 18, 21, 26, 66, 99, 99, 99, 99, 24, 26, 56, 99, 99,
            99, 99, 99, 47, 66, 99, 99, 99, 99, 99, 99, 99, 99, 99, 99, 99, 99, 99, 99, 99, 99, 99,
            99, 99, 99, 99, 99, 99, 99, 99, 99, 99, 99, 99, 99, 99, 99, 99, 99, 99, 99, 99, 99,
        ];
        assert(luma@ =~= luma_base());
        assert(chroma@ =~= chroma_base());
        let qf: u32 = if qp < 50 {
            5000 / (qp as u32)
        } else {
            200 - (qp as u32) * 2
        };
        let quant_luma = scale_table(&luma, qf);
        let quant_chroma = scale_table(&chroma, qf);
        assert(quant_luma@ =~= scaled_table(luma_base(), qp));
        assert(quant_chroma@ =~= scaled_table(chroma_base(), qp));
        (quant_luma, quant_chroma)
    }

    fn reset(&mut self)
        ensures
            final(self).state() == (ParserState {
                buffer: Seq::empty(),
                receiving: false,
                ..old(self).state()
            }),
    {
        self.jpeg_buffer.clear();
        self.receiving_frame = false;
    }

    /// Frames completed, packets taken and frames dropped so far.
    pub fn get_stats(&self) -> (r: (u32, u32, u32))
        ensures
            r == (self.state().frames, self.state().packets, self.state().dropped),
    {
        (self.frame_count, self.packet_count, self.dropped_frames)
    }
}

/// The JPEG frame that a start packet with valid image parameters begins
/// carries, at byte 152 (after APP0 and the two quantisation tables), a
/// baseline frame header that gives the height and then the width in
/// pixels, eight times the embedded height byte (7) and width byte (6),
/// each as two big-endian bytes; and the frame ends with the packet's scan
/// data (the JPEG data after its 12-byte embedded header).  The frame is
/// the one returned where the packet also ends it, else the one under way.
pub proof fn lemma_start_packet_frame_header(
    s: ParserState,
    f: Seq<u8>,
    n: ParserState,
    r: Result<Option<Vec<u8>>>,
)
    requires
        parse_step(s, f, n, r),
        header_error(f) is None,
        f.len() > 38,
        start_flag(f),
        jpeg_data_of(f).len() >= 12,
        jpeg_data_of(f)[6] != 0,
        jpeg_data_of(f)[7] != 0,
        1 <= jpeg_data_of(f)[5] <= 100,
    ensures
        ({
            let d = jpeg_data_of(f);
            let w = d[6] as int * 8;
            let h = d[7] as int * 8;
            let frame = if end_flag(f) {
                r->Ok_0->Some_0@
            } else {
                n.buffer
            };
            &&& end_flag(f) ==> (r matches Ok(Some(_)))
            &&& frame.len() >= 161
            &&& frame.subrange(152, 161) == seq![
                0xFFu8, 0xC0u8, 0x00u8, 0x11u8, 0x08u8,
                (h / 256) as u8, (h % 256) as u8, (w / 256) as u8, (w % 256) as u8,
            ]
            &&& frame.subrange(frame.len() - (d.len() - 12), frame.len() as int) == d.subrange(
                12,
                d.len() as int,
            )
        }),
{
    let d = jpeg_data_of(f);
    let w = (d[6] * 8) as u16;
    let h = (d[7] * 8) as u16;
    crate::wire::lemma_be16_digits(w);
    crate::wire::lemma_be16_digits(h);
    let hdr = jfif_header(w, h, d[5]);
    let tail = d.subrange(12, d.len() as int);
    let frame = hdr + tail;
    assert(scaled_table(luma_base(), d[5]).len() == 64);
    assert(scaled_table(chroma_base(), d[5]).len() == 64);
    assert(hdr.len() == 185);
    assert(hdr.subrange(152, 161) =~= seq![
        0xFFu8, 0xC0u8, 0x00u8, 0x11u8, 0x08u8,
        (h / 256) as u8, (h % 256) as u8, (w / 256) as u8, (w % 256) as u8,
    ]);
    assert(frame.subrange(152, 161) =~= hdr.subrange(152, 161));
    assert(frame.subrange(frame.len() - tail.len(), frame.len() as int) =~= tail);
}

} // verus!
