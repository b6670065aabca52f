//! Motion JPEG over RTP (RFC 2435): reassembly of frames and the JPEG
//! headers put around a scan.
use vstd::prelude::*;
use std::collections::BTreeMap;
use crate::rtp::packet::RtpPacket;
use crate::rtp::fragments::{fragment_values, join_fragments, joined, ordered_fragments};
use crate::shared_bytes::{bytes_as_slice, bytes_from_vec, bytes_view};
use crate::wire::{be16, get_be16, push_all, push_be16};

verus! {

/// The eight-byte JPEG header of an RTP/JPEG payload.
#[derive(Debug, Clone, Copy, PartialEq, Eq, Structural)]
pub struct JpegRtpHeader {
    /// Bits 7-5: the JPEG type; bits 4-3: q; bit 2: extension; bits 1-0:
    /// restart.
    pub type_spec: u8,
    /// Fragment offset (24 bits).
    pub offset: u32,
    pub jpeg_type: u8,
    pub q: u8,
    pub width: u16,
    pub height: u16,
}

/// `h` is the header in the first eight bytes of `p`.
pub open spec fn jpeg_header_matches(p: Seq<u8>, h: JpegRtpHeader) -> bool {
    &&& h.type_spec == p[0]
    &&& h.offset == ((p[1] as u32) << 16u32) | ((p[2] as u32) << 8u32) | (p[3] as u32)
    &&& h.width == get_be16(p, 4)
    &&& h.height == get_be16(p, 6)
    &&& h.jpeg_type == (p[0] >> 5u8) & 0x07
    &&& h.q == (p[0] >> 3u8) & 0x03
}

impl JpegRtpHeader {
    /// Reads the header; `None` for fewer than eight bytes.
    pub fn from_payload(payload: &[u8]) -> (r: Option<JpegRtpHeader>)
        ensures
            match r {
                Some(h) => payload@.len() >= 8 && jpeg_header_matches(payload@, h),
                None => payload@.len() < 8,
            },
    {
        if payload.len() < 8 {
            return None;
        }
        let type_spec = payload[0];
        let offset = ((payload[1] as u32) << 16u32) | ((payload[2] as u32) << 8u32) | (payload[3] as u32);
        let width = crate::wire::read_be16(payload, 4);
        let height = crate::wire::read_be16(payload, 6);
        Some(JpegRtpHeader {
            type_spec,
            offset,
            jpeg_type: (type_spec >> 5u8) & 0x07,
            q: (type_spec >> 3u8) & 0x03,
            width,
            height,
        })
    }

    /// Offset of the scan data in a payload.
    pub fn data_offset(&self) -> (r: usize)
        ensures
            r == 8,
    {
        8
    }
}

/// Quantisation tables carried in a payload.
#[derive(Debug, Clone)]
pub struct QuantizationTables {
    pub luma: Option<[u8; 64]>,
    pub chroma: Option<[u8; 64]>,
}

/// A reassembled frame: its timestamp, the header of its first fragment and
/// its scan data.
#[derive(Debug, Clone)]
pub struct JpegFrame {
    pub timestamp: u32,
    pub jpeg_header: JpegRtpHeader,
    pub quant_tables: Option<QuantizationTables>,
    pub data: bytes::Bytes,
}

/// A frame as values.
pub struct FrameOut {
    pub timestamp: u32,
    pub jpeg_header: JpegRtpHeader,
    pub quant_tables: Option<QuantizationTables>,
    pub data: Seq<u8>,
}

/// The reassembler as values: the fragments by timestamp and offset, the
/// completed frames kept, and how many are kept.
pub struct MjpegModel {
    pub pending: Map<u32, (JpegRtpHeader, Map<u32, Seq<u8>>)>,
    pub completed: Seq<FrameOut>,
    pub max_frames: nat,
}

pub open spec fn frame_value(f: JpegFrame) -> FrameOut {
    FrameOut {
        timestamp: f.timestamp,
        jpeg_header: f.jpeg_header,
        quant_tables: f.quant_tables,
        data: bytes_view(f.data),
    }
}

/// Completing the frame for `ts`: it leaves the pending ones, its
/// fragments are joined by increasing offset, and it carries no
/// quantisation tables.
pub open spec fn mjpeg_finalize(st: MjpegModel, ts: u32, r: Option<FrameOut>, n: MjpegModel) -> bool {
    if !st.pending.contains_key(ts) {
        r is None && n == st
    } else {
        let (h, frags) = st.pending[ts];
        r matches Some(f) && f.timestamp == ts && f.jpeg_header == h && f.quant_tables is None && (exists|s: Seq<(u32, Seq<u8>)>|
            ordered_fragments(frags, s) && f.data == joined(s)) && {
            let c = st.completed.push(f);
            n == MjpegModel {
                pending: st.pending.remove(ts),
                completed: if c.len() > st.max_frames {
                    c.subrange(1, c.len() as int)
                } else {
                    c
                },
                ..st
            }
        }
    }
}

/// Taking a packet: only payload type 26 with a header and scan data is
/// kept, as the fragment at its offset (the first packet of a timestamp
/// giving the frame's header); the marker bit completes the frame.
pub open spec fn mjpeg_push(
    st: MjpegModel,
    pt: u8,
    ts: u32,
    marker: bool,
    p: Seq<u8>,
    r: Option<FrameOut>,
    n: MjpegModel,
) -> bool {
    if pt != 26 || p.len() <= 8 {
        r is None && n == st
    } else {
        exists|h: JpegRtpHeader|
            #![trigger jpeg_header_matches(p, h)]
            jpeg_header_matches(p, h) && {
                let entry = if st.pending.contains_key(ts) {
                    st.pending[ts]
                } else {
                    (h, Map::empty())
                };
                let st1 = MjpegModel {
                    pending: st.pending.insert(
                        ts,
                        (entry.0, entry.1.insert(h.offset, p.subrange(8, p.len() as int))),
                    ),
                    ..st
                };
                if marker {
                    mjpeg_finalize(st1, ts, r, n)
                } else {
                    r is None && n == st1
                }
            }
    }
}

/// Reassembles JPEG frames from RTP packets.
pub struct MjpegReassembler {
    frames: BTreeMap<u32, (JpegRtpHeader, BTreeMap<u32, Vec<u8>>)>,
    completed_frames: Vec<JpegFrame>,
    max_frames: usize,
}

proof fn lemma_frame_keys()
    ensures
        vstd::laws_cmp::obeys_cmp::<u32>(),
{
    broadcast use vstd::laws_cmp::group_laws_cmp;
}

impl MjpegReassembler {
    pub closed spec fn model(&self) -> MjpegModel {
        MjpegModel {
            pending: self.frames@.map_values(
                |e: (JpegRtpHeader, BTreeMap<u32, Vec<u8>>)| (e.0, fragment_values(e.1)),
            ),
            completed: self.completed_frames@.map_values(|f: JpegFrame| frame_value(f)),
            max_frames: self.max_frames as nat,
        }
    }

    /// A reassembler with nothing received, keeping the last 10 frames.
    pub fn new() -> (r: MjpegReassembler)
        ensures
            r.model().pending == Map::<u32, (JpegRtpHeader, Map<u32, Seq<u8>>)>::empty(),
            r.model().completed == Seq::<FrameOut>::empty(),
            r.model().max_frames == 10,
    {
        let r = MjpegReassembler { frames: BTreeMap::new(), completed_frames: Vec::new(), max_frames: 10 };
        assert(r.model().pending =~= Map::<u32, (JpegRtpHeader, Map<u32, Seq<u8>>)>::empty());
        assert(r.model().completed =~= Seq::<FrameOut>::empty());
        r
    }

    /// Takes one RTP packet; gives the frame that its marker bit completes.
    pub fn push_packet(&mut self, packet: &RtpPacket) -> (r: Option<JpegFrame>)
        ensures
            mjpeg_push(
                old(self).model(),
                packet.header.payload_type,
                packet.header.timestamp,
                packet.header.marker,
                bytes_view(packet.payload),
                match r {
                    Some(f) => Some(frame_value(f)),
                    None => None,
                },
                final(self).model(),
            ),
    {
        proof {
            lemma_frame_keys();
        }
        if packet.header.payload_type != 26 {
            return None;
        }
        let payload = bytes_as_slice(&packet.payload);
        let ts = packet.header.timestamp;
        let header = match JpegRtpHeader::from_payload(payload) {
            Some(h) => h,
            None => {
                return None;
            },
        };
        let data_offset = header.data_offset();
        if payload.len() <= data_offset {
            return None;
        }
        let fragment = crate::wire::copy_range(payload, data_offset, payload.len());
        let ghost frag_v = fragment@;
        let (first, mut frags) = match self.frames.remove(&ts) {
            Some(e) => e,
            None => (header, BTreeMap::new()),
        };
        let ghost before = fragment_values(frags);
        frags.insert(header.offset, fragment);
        assert(fragment_values(frags) =~= before.insert(header.offset, frag_v));
        self.frames.insert(ts, (first, frags));
        proof {
            let entry = if old(self).model().pending.contains_key(ts) {
                old(self).model().pending[ts]
            } else {
                (header, Map::empty())
            };
            assert(before =~= entry.1);
            assert(self.model().pending =~= old(self).model().pending.insert(
                ts,
                (entry.0, entry.1.insert(header.offset, payload@.subrange(8, payload@.len() as int))),
            ));
        }
        if packet.header.marker {
            let r = self.reassemble_frame(ts);
            return r;
        }
        None
    }

    fn reassemble_frame(&mut self, ts: u32) -> (r: Option<JpegFrame>)
        ensures
            mjpeg_finalize(
                old(self).model(),
                ts,
                match r {
                    Some(f) => Some(frame_value(f)),
                    None => None,
                },
                final(self).model(),
            ),
    {
        proof {
            lemma_frame_keys();
        }
        let (jpeg_header, fragments) = match self.frames.remove(&ts) {
            Some(e) => e,
            None => {
                assert(self.model().pending =~= old(self).model().pending);
                return None;
            },
        };
        assert(self.model().pending =~= old(self).model().pending.remove(ts));
        let data = join_fragments(&fragments);
        let frame = JpegFrame {
            timestamp: ts,
            jpeg_header,
            quant_tables: None,
            data: bytes_from_vec(data),
        };
        let kept = JpegFrame {
            timestamp: ts,
            jpeg_header,
            quant_tables: None,
            data: frame.data.clone(),
        };
        self.completed_frames.push(kept);
        if self.completed_frames.len() > self.max_frames {
            self.completed_frames.remove(0);
        }
        proof {
            let c = old(self).model().completed.push(frame_value(frame));
            let want = if c.len() > old(self).model().max_frames {
                c.subrange(1, c.len() as int)
            } else {
                c
            };
            assert(self.model().completed =~= want);
        }
        Some(frame)
    }

    /// The completed frames kept, oldest first.
    pub fn frames(&self) -> (r: &[JpegFrame])
        ensures
            r@.map_values(|f: JpegFrame| frame_value(f)) == self.model().completed,
    {
        self.completed_frames.as_slice()
    }

    /// Forgets the completed frames.
    pub fn clear_frames(&mut self)
        ensures
            final(self).model() == (MjpegModel { completed: Seq::empty(), ..old(self).model() }),
    {
        self.completed_frames.clear();
        assert(self.model().completed =~= Seq::<FrameOut>::empty());
    }
}

/// The standard luminance quantisation table.
pub open spec fn default_luma_table() -> Seq<u8> {
    seq![
        16u8, 11, 10, 16, 24, 40, 51, 61, 12, 12, 14, 19, 26, 58, 60, 55, 14, 13, 16, 24, 40, 57,
        69, 56, 14, 17, 22, 29, 51, 87, 80, 62, 18, 22, 37, 56, 68, 109, 103, 77, 24, 35, 55, 64,
        81, 104, 113, 92, 49, 64, 78, 87, 103, 121, 120, 101, 72, 92, 95, 98, 112, 100, 103, 99,
    ]
}

/// The standard chrominance quantisation table.
pub open spec fn default_chroma_table() -> Seq<u8> {
    seq![
        17u8, 18, 24, 47, 99, 99, 99, 99, 18, 21, 26, 66, 99, 99, 99, 99, 24, 26, 56, 99, 99, 99,
        99, 99, 47, 66, 99, 99, 99, 99, 99, 99, 99, 99, 99, 99, 99, 99, 99, 99, 99, 99, 99, 99, 99,
        99, 99, 99, 99, 99, 99, 99, 99, 99, 99, 99, 99, 99, 99, 99, 99, 99, 99, 99,
    ]
}

/// The two quantisation table segments.
pub open spec fn quant_segments() -> Seq<u8> {
    seq![0xFFu8, 0xDB, 0x00, 0x43, 0x00] + default_luma_table() + seq![0xFFu8, 0xDB, 0x00, 0x43, 0x01]
        + default_chroma_table()
}

/// The luminance DC and AC Huffman table segments.
pub open spec fn huffman_segments() -> Seq<u8> {
    seq![0xFFu8, 0xC4, 0x00, 0x1F, 0x00] + seq![0u8, 1, 5, 1, 1, 1, 1, 1, 1, 0, 0, 0, 0, 0, 0, 0]
        + seq![0u8, 1, 2, 3, 4, 5, 6, 7, 8, 9, 10, 11] + seq![0xFFu8, 0xC4, 0x00, 0xB5, 0x10] + seq![
        0u8,
        2,
        1,
        3,
        3,
        2,
        4,
        3,
        5,
        5,
        4,
        4,
        0,
        0,
        1,
        0x7D,
    ] + ac_luma_values()
}

/// The 162 symbols of the standard luminance AC table.
pub open spec fn ac_luma_values() -> Seq<u8> {
    seq![
        0x01u8, 0x02, 0x03, 0x00, 0x04, 0x11, 0x05, 0x12, 0x21, 0x31, 0x41, 0x06, 0x13, 0x51, 0x61,
        0x07, 0x22, 0x71, 0x14, 0x32, 0x81, 0x91, 0xA1, 0x08, 0x23, 0x42, 0xB1, 0xC1, 0x15, 0x52,
        0xD1, 0xF0, 0x24, 0x33, 0x62, 0x72, 0x82, 0x09, 0x0A, 0x16, 0x17, 0x18, 0x19, 0x1A, 0x25,
        0x26, 0x27, 0x28, 0x29, 0x2A, 0x34, 0x35, 0x36, 0x37, 0x38, 0x39, 0x3A, 0x43, 0x44, 0x45,
        0x46, 0x47, 0x48, 0x49, 0x4A, 0x53, 0x54, 0x55, 0x56, 0x57, 0x58, 0x59, 0x5A, 0x63, 0x64,
        0x65, 0x66, 0x67, 0x68, 0x69, 0x6A, 0x73, 0x74, 0x75, 0x76, 0x77, 0x78, 0x79, 0x7A, 0x83,
        0x84, 0x85, 0x86, 0x87, 0x88, 0x89, 0x8A, 0x92, 0x93, 0x94, 0x95, 0x96, 0x97, 0x98, 0x99,
        0x9A, 0xA2, 0xA3, 0xA4, 0xA5, 0xA6, 0xA7, 0xA8, 0xA9, 0xAA, 0xB2, 0xB3, 0xB4, 0xB5, 0xB6,
        0xB7, 0xB8, 0xB9, 0xBA, 0xC2, 0xC3, 0xC4, 0xC5, 0xC6, 0xC7, 0xC8, 0xC9, 0xCA, 0xD2, 0xD3,
        0xD4, 0xD5, 0xD6, 0xD7, 0xD8, 0xD9, 0xDA, 0xE1, 0xE2, 0xE3, 0xE4, 0xE5, 0xE6, 0xE7, 0xE8,
        0xE9, 0xEA, 0xF1, 0xF2, 0xF3, 0xF4, 0xF5, 0xF6, 0xF7, 0xF8, 0xF9, 0xFA,
    ]
}

/// The JPEG file around a scan without markers: start of image, JFIF,
/// the standard tables, a baseline frame header of the given size, the scan
/// header, the scan and end of image.
pub open spec fn jpeg_file_around(width: u16, height: u16, scan: Seq<u8>) -> Seq<u8> {
    seq![0xFFu8, 0xD8, 0xFF, 0xE0, 0x00, 0x10, 0x4A, 0x46, 0x49, 0x46, 0x00, 0x01, 0x02, 0x00, 0x00, 0x01, 0x00, 0x01, 0x00, 0x00, 0x00, 0x00]
        + quant_segments() + huffman_segments() + seq![0xFFu8, 0xC0, 0x00, 0x11, 0x08] + be16(height)
        + be16(width) + seq![0x03u8, 0x01, 0x22, 0x00, 0x02, 0x11, 0x01, 0x03, 0x11, 0x01]
        + seq![0xFFu8, 0xDA, 0x00, 0x0C, 0x03, 0x01, 0x00, 0x02, 0x11, 0x03, 0x11, 0x00, 0x3F, 0x00]
        + scan + seq![0xFFu8, 0xD9]
}

/// What wrapping a frame's data gives: data that already starts a JPEG file
/// is kept, with an end-of-image marker added where it does not end with one
/// (a file of fewer than four bytes always gets one); other data is put in
/// a whole JPEG file.
pub open spec fn wrapped_jpeg(data: Seq<u8>, width: u16, height: u16) -> Seq<u8> {
    if data.len() >= 2 && data[0] == 0xFF && data[1] == 0xD8 {
        if data.len() >= 4 && data[data.len() - 2] == 0xFF && data[data.len() - 1] == 0xD9 {
            data
        } else {
            data + seq![0xFFu8, 0xD9]
        }
    } else {
        jpeg_file_around(width, height, data)
    }
}

fn push_array<const N: usize>(v: &mut Vec<u8>, a: [u8; N])
    ensures
        final(v)@ == old(v)@ + a@,
{
    push_all(v, a.as_slice());
}

/// Appends the standard luminance and chrominance quantisation tables.
fn add_default_quant_table(jpeg: &mut Vec<u8>)
    ensures
        final(jpeg)@ == old(jpeg)@ + quant_segments(),
{
    push_array(jpeg, [0xFF, 0xDB, 0x00, 0x43, 0x00]);
    let luma_table: [u8; 64] = [
        16, 11, 10, 16, 24, 40, 51, 61, 12, 12, 14, 19, 26, 58, 60, 55, 14, 13, 16, 24, 40, 57,
        69, 56, 14, 17, 22, 29, 51, 87, 80, 62, 18, 22, 37, 56, 68, 109, 103, 77, 24, 35, 55, 64,
        81, 104, 113, 92, 49, 64, 78, 87, 103, 121, 120, 101, 72, 92, 95, 98, 112, 100, 103, 99,
    ];
    assert(luma_table@ =~= default_luma_table());
    push_array(jpeg, luma_table);
    push_array(jpeg, [0xFF, 0xDB, 0x00, 0x43, 0x01]);
    let chroma_table: [u8; 64] = [
        17, 18, 24, 47, 99, 99, 99, 99, 18, 21, 26, 66, 99, 99, 99, 99, 24, 26, 56, 99, 99, 99,
        99, 99, 47, 66, 99, 99, 99, 99, 99, 99, 99, 99, 99, 99, 99, 99, 99, 99, 99, 99, 99, 99, 99,
        99, 99, 99, 99, 99, 99, 99, 99, 99, 99, 99, 99, 99, 99, 99, 99, 99, 99, 99,
    ];
    assert(chroma_table@ =~= default_chroma_table());
    push_array(jpeg, chroma_table);
    assert(jpeg@ =~= old(jpeg)@ + quant_segments());
}

/// Appends the standard luminance DC and AC Huffman tables.
fn add_default_huffman_table(jpeg: &mut Vec<u8>)
    ensures
        final(jpeg)@ == old(jpeg)@ + huffman_segments(),
{
    push_array(jpeg, [0xFF, 0xC4, 0x00, 0x1F, 0x00]);
    push_array(jpeg, [0u8, 1, 5, 1, 1, 1, 1, 1, 1, 0, 0, 0, 0, 0, 0, 0]);
    push_array(jpeg, [0u8, 1, 2, 3, 4, 5, 6, 7, 8, 9, 10, 11]);
    push_array(jpeg, [0xFF, 0xC4, 0x00, 0xB5, 0x10]);
    push_array(jpeg, [0u8, 2, 1, 3, 3, 2, 4, 3, 5, 5, 4, 4, 0, 0, 1, 0x7D]);
    let ac_luma_vals: [u8; 162] = [
        0x01, 0x02, 0x03, 0x00, 0x04, 0x11, 0x05, 0x12, 0x21, 0x31, 0x41, 0x06, 0x13, 0x51, 0x61,
        0x07, 0x22, 0x71, 0x14, 0x32, 0x81, 0x91, 0xA1, 0x08, 0x23, 0x42, 0xB1, 0xC1, 0x15, 0x52,
        0xD1, 0xF0, 0x24, 0x33, 0x62, 0x72, 0x82, 0x09, 0x0A, 0x16, 0x17, 0x18, 0x19, 0x1A, 0x25,
        0x26, 0x27, 0x28, 0x29, 0x2A, 0x34, 0x35, 0x36, 0x37, 0x38, 0x39, 0x3A, 0x43, 0x44, 0x45,
        0x46, 0x47, 0x48, 0x49, 0x4A, 0x53, 0x54, 0x55, 0x56, 0x57, 0x58, 0x59, 0x5A, 0x63, 0x64,
        0x65, 0x66, 0x67, 0x68, 0x69, 0x6A, 0x73, 0x74, 0x75, 0x76, 0x77, 0x78, 0x79, 0x7A, 0x83,
        0x84, 0x85, 0x86, 0x87, 0x88, 0x89, 0x8A, 0x92, 0x93, 0x94, 0x95, 0x96, 0x97, 0x98, 0x99,
        0x9A, 0xA2, 0xA3, 0xA4, 0xA5, 0xA6, 0xA7, 0xA8, 0xA9, 0xAA, 0xB2, 0xB3, 0xB4, 0xB5, 0xB6,
        0xB7, 0xB8, 0xB9, 0xBA, 0xC2, 0xC3, 0xC4, 0xC5, 0xC6, 0xC7, 0xC8, 0xC9, 0xCA, 0xD2, 0xD3,
        0xD4, 0xD5, 0xD6, 0xD7, 0xD8, 0xD9, 0xDA, 0xE1, 0xE2, 0xE3, 0xE4, 0xE5, 0xE6, 0xE7, 0xE8,
        0xE9, 0xEA, 0xF1, 0xF2, 0xF3, 0xF4, 0xF5, 0xF6, 0xF7, 0xF8, 0xF9, 0xFA,
    ];
    assert(ac_luma_vals@ =~= ac_luma_values());
    push_array(jpeg, ac_luma_vals);
    assert(jpeg@ =~= old(jpeg)@ + huffman_segments());
}

/// The bytes of a JPEG file for a frame.
pub fn wrap_jpeg_frame(frame: &JpegFrame) -> (r: Vec<u8>)
    ensures
        r@ == wrapped_jpeg(bytes_view(frame.data), frame.jpeg_header.width, frame.jpeg_header.height),
{
    let data = bytes_as_slice(&frame.data);
    let n = data.len();
    if n >= 2 && data[0] == 0xFF && data[1] == 0xD8 {
        if n >= 4 && data[n - 2] == 0xFF && data[n - 1] == 0xD9 {
            return crate::wire::copy_range(data, 0, n);
        }
        let mut jpeg_file = crate::wire::copy_range(data, 0, n);
        jpeg_file.push(0xFF);
        jpeg_file.push(0xD9);
        assert(data@.subrange(0, n as int) =~= data@);
        return jpeg_file;
    }
    let mut jpeg_file: Vec<u8> = Vec::new();
    push_array(
        &mut jpeg_file,
        [0xFF, 0xD8, 0xFF, 0xE0, 0x00, 0x10, 0x4A, 0x46, 0x49, 0x46, 0x00, 0x01, 0x02, 0x00, 0x00, 0x01, 0x00, 0x01, 0x00, 0x00, 0x00, 0x00],
    );
    add_default_quant_table(&mut jpeg_file);
    add_default_huffman_table(&mut jpeg_file);
    push_array(&mut jpeg_file, [0xFF, 0xC0, 0x00, 0x11, 0x08]);
    push_be16(&mut jpeg_file, frame.jpeg_header.height);
    push_be16(&mut jpeg_file, frame.jpeg_header.width);
    push_array(&mut jpeg_file, [0x03, 0x01, 0x22, 0x00, 0x02, 0x11, 0x01, 0x03, 0x11, 0x01]);
    push_array(&mut jpeg_file, [0xFF, 0xDA, 0x00, 0x0C, 0x03, 0x01, 0x00, 0x02, 0x11, 0x03, 0x11, 0x00, 0x3F, 0x00]);
    push_all(&mut jpeg_file, data);
    jpeg_file.push(0xFF);
    jpeg_file.push(0xD9);
    assert(jpeg_file@ =~= jpeg_file_around(frame.jpeg_header.width, frame.jpeg_header.height, data@));
    jpeg_file
}

} // verus!
