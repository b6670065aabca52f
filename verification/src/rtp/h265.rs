//! H.265 over RTP (RFC 7798): NAL unit types and access-unit reassembly.
use vstd::prelude::*;
use std::collections::BTreeMap;
use crate::rtp::packet::RtpPacket;
use crate::rtp::h264::{
    annex_b, ap_body, concat_nals, lemma_annex_b, lemma_ap_body_len, sc_units, start_code,
};
use crate::shared_bytes::{bytes_as_slice, bytes_copy_from_slice, bytes_from_vec, bytes_view};
use crate::wire::{get_be16, push_all, read_be16};

verus! {

/// H.265 NAL unit types, with the aggregation and fragmentation types of
/// RFC 7798.
#[derive(Debug, Clone, Copy, PartialEq, Eq, Structural)]
pub enum H265NalUnitType {
    Unspecified(u8),
    Sps,
    Vps,
    Pps,
    Sei,
    SeiPrefix,
    Aud,
    EndOfSequence,
    EndOfStream,
    FillerData,
    BlaWLp,
    BlaWRadl,
    BlaNLp,
    IdrNlp,
    IdrWRadl,
    Cra,
    Fu,
    Ap,
    TrailN,
    TrailR,
}

/// The type with number `t`; sub-layer non-reference and reference pictures
/// (0 to 9) are grouped as trailing pictures.
pub open spec fn h265_type_of(t: u8) -> H265NalUnitType {
    if t == 0 || t == 2 || t == 4 || t == 6 || t == 8 {
        H265NalUnitType::TrailN
    } else if t == 1 || t == 3 || t == 5 || t == 7 || t == 9 {
        H265NalUnitType::TrailR
    } else if t == 16 {
        H265NalUnitType::BlaWLp
    } else if t == 17 {
        H265NalUnitType::BlaWRadl
    } else if t == 18 {
        H265NalUnitType::BlaNLp
    } else if t == 19 {
        H265NalUnitType::IdrWRadl
    } else if t == 20 {
        H265NalUnitType::IdrNlp
    } else if t == 21 {
        H265NalUnitType::Cra
    } else if t == 32 {
        H265NalUnitType::Vps
    } else if t == 33 {
        H265NalUnitType::Sps
    } else if t == 34 {
        H265NalUnitType::Pps
    } else if t == 35 {
        H265NalUnitType::Aud
    } else if t == 36 {
        H265NalUnitType::EndOfSequence
    } else if t == 37 {
        H265NalUnitType::EndOfStream
    } else if t == 38 {
        H265NalUnitType::FillerData
    } else if t == 39 {
        H265NalUnitType::SeiPrefix
    } else if t == 40 {
        H265NalUnitType::Sei
    } else if t == 48 {
        H265NalUnitType::Ap
    } else if t == 49 {
        H265NalUnitType::Fu
    } else {
        H265NalUnitType::Unspecified(t)
    }
}

pub open spec fn h265_type_code(n: H265NalUnitType) -> u8 {
    match n {
        H265NalUnitType::TrailN => 0,
        H265NalUnitType::TrailR => 1,
        H265NalUnitType::BlaWLp => 16,
        H265NalUnitType::BlaWRadl => 17,
        H265NalUnitType::BlaNLp => 18,
        H265NalUnitType::IdrWRadl => 19,
        H265NalUnitType::IdrNlp => 20,
        H265NalUnitType::Cra => 21,
        H265NalUnitType::Vps => 32,
        H265NalUnitType::Sps => 33,
        H265NalUnitType::Pps => 34,
        H265NalUnitType::Aud => 35,
        H265NalUnitType::EndOfSequence => 36,
        H265NalUnitType::EndOfStream => 37,
        H265NalUnitType::FillerData => 38,
        H265NalUnitType::SeiPrefix => 39,
        H265NalUnitType::Sei => 40,
        H265NalUnitType::Ap => 48,
        H265NalUnitType::Fu => 49,
        H265NalUnitType::Unspecified(t) => t,
    }
}

/// Random-access pictures: BLA, IDR and CRA.
pub open spec fn h265_is_keyframe(n: H265NalUnitType) -> bool {
    n == H265NalUnitType::BlaWLp || n == H265NalUnitType::BlaWRadl || n == H265NalUnitType::BlaNLp
        || n == H265NalUnitType::IdrWRadl || n == H265NalUnitType::IdrNlp || n
        == H265NalUnitType::Cra
}

impl H265NalUnitType {
    pub fn from_u8(t: u8) -> (r: H265NalUnitType)
        ensures
            r == h265_type_of(t),
    {
        match t {
            0 | 2 | 4 | 6 | 8 => H265NalUnitType::TrailN,
            1 | 3 | 5 | 7 | 9 => H265NalUnitType::TrailR,
            16 => H265NalUnitType::BlaWLp,
            17 => H265NalUnitType::BlaWRadl,
            18 => H265NalUnitType::BlaNLp,
            19 => H265NalUnitType::IdrWRadl,
            20 => H265NalUnitType::IdrNlp,
            21 => H265NalUnitType::Cra,
            32 => H265NalUnitType::Vps,
            33 => H265NalUnitType::Sps,
            34 => H265NalUnitType::Pps,
            35 => H265NalUnitType::Aud,
            36 => H265NalUnitType::EndOfSequence,
            37 => H265NalUnitType::EndOfStream,
            38 => H265NalUnitType::FillerData,
            39 => H265NalUnitType::SeiPrefix,
            40 => H265NalUnitType::Sei,
            48 => H265NalUnitType::Ap,
            49 => H265NalUnitType::Fu,
            _ => H265NalUnitType::Unspecified(t),
        }
    }

    pub fn to_u8(&self) -> (r: u8)
        ensures
            r == h265_type_code(*self),
    {
        match self {
            H265NalUnitType::TrailN => 0,
            H265NalUnitType::TrailR => 1,
            H265NalUnitType::BlaWLp => 16,
            H265NalUnitType::BlaWRadl => 17,
            H265NalUnitType::BlaNLp => 18,
            H265NalUnitType::IdrWRadl => 19,
            H265NalUnitType::IdrNlp => 20,
            H265NalUnitType::Cra => 21,
            H265NalUnitType::Vps => 32,
            H265NalUnitType::Sps => 33,
            H265NalUnitType::Pps => 34,
            H265NalUnitType::Aud => 35,
            H265NalUnitType::EndOfSequence => 36,
            H265NalUnitType::EndOfStream => 37,
            H265NalUnitType::FillerData => 38,
            H265NalUnitType::SeiPrefix => 39,
            H265NalUnitType::Sei => 40,
            H265NalUnitType::Ap => 48,
            H265NalUnitType::Fu => 49,
            H265NalUnitType::Unspecified(t) => *t,
        }
    }

    pub fn is_keyframe(&self) -> (r: bool)
        ensures
            r == h265_is_keyframe(*self),
    {
        match self {
            H265NalUnitType::BlaWLp | H265NalUnitType::BlaWRadl | H265NalUnitType::BlaNLp
            | H265NalUnitType::IdrWRadl | H265NalUnitType::IdrNlp | H265NalUnitType::Cra => true,
            _ => false,
        }
    }

    pub fn is_parameter_set(&self) -> (r: bool)
        ensures
            r == (*self == H265NalUnitType::Sps || *self == H265NalUnitType::Pps || *self
                == H265NalUnitType::Vps),
    {
        match self {
            H265NalUnitType::Sps | H265NalUnitType::Pps | H265NalUnitType::Vps => true,
            _ => false,
        }
    }
}

/// The type of the NAL unit whose two-byte header starts `b`.
pub open spec fn h265_header_type(b: Seq<u8>) -> H265NalUnitType {
    h265_type_of((b[0] & 0x7E) >> 1u8)
}

/// The forbidden bit, type, layer id and temporal id of a two-byte NAL
/// header; `None` for fewer than two bytes.
pub fn parse_h265_nal_header(bytes: &[u8]) -> (r: Option<(u8, H265NalUnitType, u16, u8)>)
    ensures
        match r {
            Some((f, t, layer, tid)) => bytes@.len() >= 2 && f == (bytes@[0] & 0x80) >> 7u8 && t
                == h265_header_type(bytes@) && layer == ((((bytes@[0] & 0x01) << 5u8) | ((bytes@[1]
                & 0xF8) >> 3u8)) as u16) && tid == bytes@[1] & 0x07,
            None => bytes@.len() < 2,
        },
{
    if bytes.len() < 2 {
        return None;
    }
    let byte0 = bytes[0];
    let byte1 = bytes[1];
    let forbidden = (byte0 & 0x80) >> 7u8;
    let nal_type = (byte0 & 0x7E) >> 1u8;
    let layer_id = (((byte0 & 0x01) << 5u8) | ((byte1 & 0xF8) >> 3u8)) as u16;
    let tid = byte1 & 0x07;
    Some((forbidden, H265NalUnitType::from_u8(nal_type), layer_id, tid))
}

/// The two-byte payload header of an aggregation packet.
pub struct ApHeader {
    pub nal_header: [u8; 2],
}

/// The header byte of a fragmentation unit.
#[derive(Debug, Clone)]
pub struct FuHeader {
    pub start: bool,
    pub end: bool,
    pub reserved: u8,
    pub nal_type: u8,
}

impl FuHeader {
    pub fn from_byte(byte: u8) -> (r: FuHeader)
        ensures
            r.start == ((byte & 0x80) != 0),
            r.end == ((byte & 0x40) != 0),
            r.reserved == 0,
            r.nal_type == byte & 0x3F,
    {
        FuHeader { start: (byte & 0x80) != 0, end: (byte & 0x40) != 0, reserved: 0, nal_type: byte & 0x3F }
    }

    pub fn to_byte(&self) -> (r: u8)
        ensures
            r == ((if self.start { 0x80u8 } else { 0u8 }) | (if self.end { 0x40u8 } else { 0u8 }) | (
            self.nal_type & 0x3F)),
    {
        let s: u8 = if self.start { 0x80 } else { 0 };
        let e: u8 = if self.end { 0x40 } else { 0 };
        s | e | (self.nal_type & 0x3F)
    }
}

/// Writing back the header of a fragmentation unit gives the byte it was
/// read from.
pub proof fn lemma_h265_fu_header_roundtrip(byte: u8)
    ensures
        ((if (byte & 0x80) != 0 { 0x80u8 } else { 0u8 }) | (if (byte & 0x40) != 0 { 0x40u8 } else { 0u8 }) | (
        (byte & 0x3F) & 0x3F)) == byte,
{
    assert(((if (byte & 0x80) != 0 { 0x80u8 } else { 0u8 }) | (if (byte & 0x40) != 0 { 0x40u8 } else { 0u8 }) | (
    (byte & 0x3F) & 0x3F)) == byte) by (bit_vector);
}

/// Reading a type's number back gives the type, for every named type other
/// than the grouped trailing pictures' numbers, and for numbers that name none.
pub proof fn lemma_h265_type_roundtrip(n: H265NalUnitType)
    requires
        n matches H265NalUnitType::Unspecified(t) ==> h265_type_of(t) == n,
    ensures
        h265_type_of(h265_type_code(n)) == n,
{
}

/// A reassembled access unit in Annex B form.
#[derive(Debug, Clone)]
pub struct H265AccessUnit {
    pub timestamp: u32,
    pub data: bytes::Bytes,
    pub is_keyframe: bool,
}

pub struct H265AuOut {
    pub timestamp: u32,
    pub data: Seq<u8>,
    pub is_keyframe: bool,
}

pub struct H265AuModel {
    pub nals: Seq<Seq<u8>>,
    pub is_keyframe: bool,
    pub fu_started: bool,
    pub fu_nal_header: Option<Seq<u8>>,
    pub fu_data: Seq<u8>,
}

pub struct H265Model {
    pub pending: Map<u32, H265AuModel>,
    pub completed: Seq<H265AuOut>,
    pub max_aus: nat,
    pub vps: Option<Seq<u8>>,
    pub sps: Option<Seq<u8>>,
    pub pps: Option<Seq<u8>>,
}

pub open spec fn h265_empty_au() -> H265AuModel {
    H265AuModel {
        nals: Seq::empty(),
        is_keyframe: false,
        fu_started: false,
        fu_nal_header: None,
        fu_data: Seq::empty(),
    }
}

pub open spec fn h265_au_at(st: H265Model, ts: u32) -> H265AuModel {
    if st.pending.contains_key(ts) {
        st.pending[ts]
    } else {
        h265_empty_au()
    }
}

/// `st` with an access unit under construction for `ts`.
pub open spec fn h265_touch(st: H265Model, ts: u32) -> H265Model {
    H265Model { pending: st.pending.insert(ts, h265_au_at(st, ts)), ..st }
}

/// One NAL unit of at least two bytes: remembered where it is a parameter
/// set, added with a start code, and a random-access picture makes the
/// unit a keyframe.
pub open spec fn h265_add_nal(st: H265Model, ts: u32, nal: Seq<u8>) -> H265Model {
    let t = h265_header_type(nal);
    let au = h265_au_at(st, ts);
    H265Model {
        vps: if t == H265NalUnitType::Vps { Some(nal) } else { st.vps },
        sps: if t == H265NalUnitType::Sps { Some(nal) } else { st.sps },
        pps: if t == H265NalUnitType::Pps { Some(nal) } else { st.pps },
        pending: st.pending.insert(
            ts,
            H265AuModel {
                nals: au.nals.push(start_code() + nal),
                is_keyframe: au.is_keyframe || h265_is_keyframe(t),
                ..au
            },
        ),
        ..st
    }
}

/// The NAL units of an aggregation packet from `off` on, added in turn;
/// units shorter than two bytes are skipped, and a unit that runs past the
/// end stops the walk.
pub open spec fn ap_apply(st: H265Model, ts: u32, p: Seq<u8>, off: int) -> H265Model
    decreases p.len() - off,
{
    if off < 0 || off + 2 > p.len() {
        st
    } else {
        let n = get_be16(p, off) as int;
        let s = off + 2;
        if s + n > p.len() {
            st
        } else {
            let st1 = if n >= 2 {
                h265_add_nal(st, ts, p.subrange(s, s + n))
            } else {
                st
            };
            ap_apply(st1, ts, p, s + n)
        }
    }
}

/// A fragmentation unit (payload header, FU header, fragment); `None` where
/// a continuation arrives with no fragmented unit under way.
pub open spec fn h265_fu_apply(st: H265Model, ts: u32, p: Seq<u8>) -> Option<H265Model> {
    let au = h265_au_at(st, ts);
    let start = (p[2] & 0x80) != 0;
    let end = (p[2] & 0x40) != 0;
    let fu_type = p[2] & 0x3F;
    let frag = p.subrange(3, p.len() as int);
    let hdr = seq![(p[0] & 0x81) | ((fu_type << 1u8) & 0x7E), p[1]];
    if !start && !au.fu_started {
        Some(h265_touch(st, ts))
    } else {
        let au1 = if start {
            H265AuModel {
                fu_nal_header: Some(hdr),
                fu_started: true,
                fu_data: start_code() + hdr + frag,
                is_keyframe: au.is_keyframe || h265_is_keyframe(h265_type_of(fu_type)),
                ..au
            }
        } else {
            H265AuModel { fu_data: au.fu_data + frag, ..au }
        };
        let au2 = if end {
            H265AuModel {
                nals: au1.nals.push(au1.fu_data),
                fu_data: Seq::empty(),
                fu_started: false,
                fu_nal_header: None,
                ..au1
            }
        } else {
            au1
        };
        Some(H265Model { pending: st.pending.insert(ts, au2), ..st })
    }
}

pub open spec fn h265_with_start_code(ps: Option<Seq<u8>>) -> Seq<u8> {
    match ps {
        Some(b) => start_code() + b,
        None => Seq::empty(),
    }
}

/// Completing the access unit for `ts`, as for H.264 but with the video,
/// sequence and picture parameter sets before a keyframe.
pub open spec fn h265_finalize(st: H265Model, ts: u32) -> (H265Model, Option<H265AuOut>) {
    if !st.pending.contains_key(ts) {
        (st, None)
    } else {
        let b = st.pending[ts];
        let st1 = H265Model { pending: st.pending.remove(ts), ..st };
        if b.nals.len() == 0 {
            (st1, None)
        } else {
            let body = crate::rtp::h264::concat_nals(b.nals);
            let data = if b.is_keyframe {
                h265_with_start_code(st.vps) + h265_with_start_code(st.sps) + h265_with_start_code(
                    st.pps,
                ) + body
            } else {
                body
            };
            let au = H265AuOut { timestamp: ts, data, is_keyframe: b.is_keyframe };
            let c = st.completed.push(au);
            let c2 = if c.len() > st.max_aus {
                c.subrange(1, c.len() as int)
            } else {
                c
            };
            (H265Model { completed: c2, ..st1 }, Some(au))
        }
    }
}

/// Taking a packet's payload `p` with timestamp `ts` and marker `marker`.
pub open spec fn h265_push_step(st: H265Model, ts: u32, marker: bool, p: Seq<u8>) -> (
    H265Model,
    Option<H265AuOut>,
) {
    if p.len() < 2 {
        (st, None)
    } else {
        let t = h265_header_type(p);
        let handled: Option<H265Model> = if t == H265NalUnitType::Fu {
            if p.len() < 3 {
                None
            } else {
                match h265_fu_apply(st, ts, p) {
                    Some(s) => if !((p[2] & 0x80) != 0) && !h265_au_at(st, ts).fu_started {
                        None
                    } else {
                        Some(s)
                    },
                    None => None,
                }
            }
        } else if t == H265NalUnitType::Ap {
            if p.len() < 4 {
                None
            } else {
                Some(ap_apply(h265_touch(st, ts), ts, p, 2))
            }
        } else {
            Some(h265_add_nal(st, ts, p))
        };
        match handled {
            None => if t == H265NalUnitType::Fu && p.len() >= 3 {
                (h265_touch(st, ts), None)
            } else {
                (st, None)
            },
            Some(st2) => if marker {
                h265_finalize(st2, ts)
            } else {
                (st2, None)
            },
        }
    }
}

/// The payload header of a fragment of the NAL unit whose header starts
/// with `h0`: its forbidden and layer bits with the fragmentation type 49.
pub open spec fn h265_fu_indicator(h0: u8) -> u8 {
    (h0 & 0x81) | 0x62
}

/// The payload of one fragment of the NAL unit with header `h0 h1`.
pub open spec fn h265_fu_payload(h0: u8, h1: u8, frag: Seq<u8>, first: bool, last: bool) -> Seq<u8> {
    let s: u8 = if first {
        0x80
    } else {
        0
    };
    let e: u8 = if last {
        0x40
    } else {
        0
    };
    seq![h265_fu_indicator(h0), h1, s | e | ((h0 & 0x7E) >> 1u8)] + frag
}

/// The fragmentation payloads that carry the NAL unit with header `h0 h1`
/// whose body is split into `frags`.
pub open spec fn h265_fu_payloads(h0: u8, h1: u8, frags: Seq<Seq<u8>>) -> Seq<Seq<u8>> {
    Seq::new(frags.len(), |i: int| h265_fu_payload(h0, h1, frags[i], i == 0, i == frags.len() - 1))
}

/// The reassembler after taking the payloads `ps`, in order, all with
/// timestamp `ts` and without the marker bit.
pub open spec fn h265_take_payloads(st: H265Model, ts: u32, ps: Seq<Seq<u8>>) -> H265Model
    decreases ps.len(),
{
    if ps.len() == 0 {
        st
    } else {
        h265_push_step(h265_take_payloads(st, ts, ps.drop_last()), ts, false, ps.last()).0
    }
}

proof fn lemma_h265_fu_bits(h0: u8, first: bool, last: bool)
    ensures
        ({
            let s: u8 = if first { 0x80 } else { 0 };
            let e: u8 = if last { 0x40 } else { 0 };
            let b = s | e | ((h0 & 0x7E) >> 1u8);
            let ind = h265_fu_indicator(h0);
            &&& (ind & 0x7E) >> 1u8 == 49
            &&& ((b & 0x80) != 0) == first
            &&& ((b & 0x40) != 0) == last
            &&& (ind & 0x81) | (((b & 0x3F) << 1u8) & 0x7E) == h0
        }),
{
    let s: u8 = if first { 0x80 } else { 0 };
    let e: u8 = if last { 0x40 } else { 0 };
    let b = s | e | ((h0 & 0x7E) >> 1u8);
    let ind = h265_fu_indicator(h0);
    assert((ind & 0x7E) >> 1u8 == 49 && (ind & 0x81) | (((b & 0x3F) << 1u8) & 0x7E) == h0 && ((b & 0x80)
        != 0) == (s == 0x80) && ((b & 0x40) != 0) == (e == 0x40)) by (bit_vector)
        requires
            ind == (h0 & 0x81) | 0x62,
            b == s | e | ((h0 & 0x7E) >> 1u8),
            s == 0x80 || s == 0,
            e == 0x40 || e == 0,
    ;
}

/// After the first `k` of the fragments, the fragment under way holds the
/// start code, the header and the first `k` fragments.
proof fn lemma_h265_fu_prefix(st: H265Model, ts: u32, h0: u8, h1: u8, frags: Seq<Seq<u8>>, k: int)
    requires
        1 <= k < frags.len(),
    ensures
        ({
            let au = h265_au_at(h265_take_payloads(st, ts, h265_fu_payloads(h0, h1, frags).subrange(0, k)), ts);
            &&& au.fu_started
            &&& au.fu_data == start_code() + seq![h0, h1] + concat_nals(frags.subrange(0, k))
            &&& au.nals == h265_au_at(st, ts).nals
        }),
    decreases k,
{
    let ps = h265_fu_payloads(h0, h1, frags);
    let p = ps[k - 1];
    lemma_h265_fu_bits(h0, k - 1 == 0, false);
    assert(p == h265_fu_payload(h0, h1, frags[k - 1], k - 1 == 0, false));
    assert(p.subrange(3, p.len() as int) =~= frags[k - 1]);
    assert(ps.subrange(0, k).drop_last() =~= ps.subrange(0, k - 1));
    assert(frags.subrange(0, k).drop_last() =~= frags.subrange(0, k - 1));
    let q = ps.subrange(0, k);
    assert(q.last() == p);
    let prevst = h265_take_payloads(st, ts, ps.subrange(0, k - 1));
    assert(h265_take_payloads(st, ts, q) == h265_push_step(prevst, ts, false, p).0);
    assert(p[0] == h265_fu_indicator(h0) && p[1] == h1);
    assert(h265_header_type(p) == H265NalUnitType::Fu);
    assert(seq![(p[0] & 0x81) | (((p[2] & 0x3F) << 1u8) & 0x7E), p[1]] =~= seq![h0, h1]);
    let fk = frags.subrange(0, k);
    assert(concat_nals(fk) == concat_nals(fk.drop_last()) + fk.last());
    assert(fk.last() == frags[k - 1]);
    if k == 1 {
        assert(ps.subrange(0, 0) =~= Seq::<Seq<u8>>::empty());
        assert(frags.subrange(0, 0) =~= Seq::<Seq<u8>>::empty());
        assert(concat_nals(Seq::<Seq<u8>>::empty()) == Seq::<u8>::empty());
        assert(start_code() + seq![h0, h1] + frags[0] =~= start_code() + seq![h0, h1] + (Seq::<u8>::empty()
            + frags[0]));
    } else {
        lemma_h265_fu_prefix(st, ts, h0, h1, frags, k - 1);
        let prev = h265_au_at(prevst, ts);
        assert(prev.fu_data + frags[k - 1] =~= start_code() + seq![h0, h1] + concat_nals(frags.subrange(0, k)));
    }
}

/// The fragments of an H.265 NAL unit, taken in order and without the
/// marker bit, add that NAL unit behind a start code to the access unit of
/// their timestamp: fragmentation is undone whatever the fragments' sizes.
pub proof fn lemma_h265_fu_reassembly(st: H265Model, ts: u32, nal: Seq<u8>, frags: Seq<Seq<u8>>)
    requires
        nal.len() >= 2,
        frags.len() >= 1,
        concat_nals(frags) == nal.subrange(2, nal.len() as int),
    ensures
        h265_au_at(h265_take_payloads(st, ts, h265_fu_payloads(nal[0], nal[1], frags)), ts).nals
            == h265_au_at(st, ts).nals.push(start_code() + nal),
{
    let h0 = nal[0];
    let h1 = nal[1];
    let ps = h265_fu_payloads(h0, h1, frags);
    let n = frags.len() as int;
    let p = ps[n - 1];
    lemma_h265_fu_bits(h0, n == 1, true);
    assert(p == h265_fu_payload(h0, h1, frags[n - 1], n - 1 == 0, true));
    assert(p.subrange(3, p.len() as int) =~= frags[n - 1]);
    assert(ps.drop_last() =~= ps.subrange(0, n - 1));
    assert(frags.drop_last() =~= frags.subrange(0, n - 1));
    assert(ps.last() == p);
    let prevst = h265_take_payloads(st, ts, ps.subrange(0, n - 1));
    assert(h265_take_payloads(st, ts, ps) == h265_push_step(prevst, ts, false, p).0);
    assert(p[0] == h265_fu_indicator(h0) && p[1] == h1);
    assert(h265_header_type(p) == H265NalUnitType::Fu);
    assert(seq![(p[0] & 0x81) | (((p[2] & 0x3F) << 1u8) & 0x7E), p[1]] =~= seq![h0, h1]);
    assert(nal =~= seq![h0, h1] + nal.subrange(2, nal.len() as int));
    if n == 1 {
        assert(ps.subrange(0, 0) =~= Seq::<Seq<u8>>::empty());
        assert(frags.drop_last() =~= Seq::<Seq<u8>>::empty());
        assert(start_code() + seq![h0, h1] + frags[0] =~= start_code() + nal);
    } else {
        lemma_h265_fu_prefix(st, ts, h0, h1, frags, n - 1);
        let prev = h265_au_at(prevst, ts);
        assert(prev.fu_data + frags[n - 1] =~= start_code() + nal);
    }
}

/// The NAL units added one after another.
spec fn add_units(st: H265Model, ts: u32, units: Seq<Seq<u8>>) -> H265Model
    decreases units.len(),
{
    if units.len() == 0 {
        st
    } else {
        add_units(h265_add_nal(st, ts, units[0]), ts, units.drop_first())
    }
}

spec fn any_keyframe(units: Seq<Seq<u8>>) -> bool {
    exists|i: int| 0 <= i < units.len() && h265_is_keyframe(h265_header_type(#[trigger] units[i]))
}

/// Walking the units of an aggregation packet adds each in turn.
proof fn lemma_ap_walk(st: H265Model, ts: u32, p: Seq<u8>, off: int, units: Seq<Seq<u8>>)
    requires
        0 <= off,
        off + ap_body(units).len() <= p.len(),
        p.subrange(off, off + ap_body(units).len()) == ap_body(units),
        forall|i: int| 0 <= i < units.len() ==> 2 <= #[trigger] units[i].len() < 65536,
    ensures
        ap_apply(st, ts, p, off) == ap_apply(add_units(st, ts, units), ts, p, off + ap_body(units).len()),
    decreases units.len(),
{
    lemma_ap_body_len(units);
    if units.len() > 0 {
        let u = units[0];
        let rest = units.drop_first();
        let body = ap_body(units);
        assert(body[0] == (u.len() / 256) as u8);
        assert(body[1] == (u.len() % 256) as u8);
        assert(p[off] == body[0]);
        assert(p[off + 1] == body[1]);
        crate::wire::lemma_get_be16_digits(p, off);
        assert(get_be16(p, off) as int == u.len());
        let s = off + 2;
        assert(p.subrange(s, s + u.len()) =~= u) by {
            assert forall|k: int| 0 <= k < u.len() implies p.subrange(s, s + u.len())[k] == u[k] by {
                assert(p[s + k] == body[2 + k]);
            }
        }
        let off2 = s + u.len();
        assert(p.subrange(off2, off2 + ap_body(rest).len()) =~= ap_body(rest)) by {
            assert forall|k: int| 0 <= k < ap_body(rest).len() implies p.subrange(off2, off2 + ap_body(rest).len())[k] == ap_body(rest)[k] by {
                assert(p[off2 + k] == body[2 + u.len() + k]);
            }
        }
        assert forall|i: int| 0 <= i < rest.len() implies 2 <= #[trigger] rest[i].len() < 65536 by {
            assert(rest[i] == units[i + 1]);
        }
        lemma_ap_walk(h265_add_nal(st, ts, u), ts, p, off2, rest);
    }
}

/// Adding units appends them, behind start codes, to the unit under way.
proof fn lemma_add_units(st: H265Model, ts: u32, units: Seq<Seq<u8>>)
    requires
        forall|i: int| 0 <= i < units.len() ==> 2 <= #[trigger] units[i].len(),
    ensures
        units.len() > 0 ==> add_units(st, ts, units).pending.contains_key(ts),
        units.len() == 0 ==> add_units(st, ts, units) == st,
        h265_au_at(add_units(st, ts, units), ts).nals == h265_au_at(st, ts).nals + sc_units(units),
        h265_au_at(add_units(st, ts, units), ts).is_keyframe == (h265_au_at(st, ts).is_keyframe
            || any_keyframe(units)),
    decreases units.len(),
{
    if units.len() == 0 {
        assert(h265_au_at(st, ts).nals + sc_units(units) =~= h265_au_at(st, ts).nals);
    } else {
        let u = units[0];
        let rest = units.drop_first();
        let st1 = h265_add_nal(st, ts, u);
        assert forall|i: int| 0 <= i < rest.len() implies 2 <= #[trigger] rest[i].len() by {
            assert(rest[i] == units[i + 1]);
        }
        lemma_add_units(st1, ts, rest);
        assert(h265_au_at(st1, ts).nals == h265_au_at(st, ts).nals.push(start_code() + u));
        assert(h265_au_at(st, ts).nals.push(start_code() + u) + sc_units(rest) =~= h265_au_at(st, ts).nals
            + sc_units(units));
        if any_keyframe(units) && !h265_is_keyframe(h265_header_type(u)) {
            let i = choose|i: int| 0 <= i < units.len() && h265_is_keyframe(h265_header_type(#[trigger] units[i]));
            assert(rest[i - 1] == units[i]);
        }
        if any_keyframe(rest) {
            let i = choose|i: int| 0 <= i < rest.len() && h265_is_keyframe(h265_header_type(#[trigger] rest[i]));
            assert(units[i + 1] == rest[i]);
        }
        if h265_is_keyframe(h265_header_type(u)) {
            assert(units[0] == u);
        }
        if add_units(st, ts, units).pending.contains_key(ts) {
        } else {
            if rest.len() == 0 {
                assert(add_units(st1, ts, rest) == st1);
            }
        }
    }
}

/// Every access unit that a packet completes as a keyframe begins with the
/// stored video, sequence and picture parameter sets, in that order, each
/// behind a start code (those that are stored), before the unit's own NAL
/// units.
pub proof fn lemma_h265_keyframe_led_by_parameter_sets(st: H265Model, ts: u32, marker: bool, p: Seq<u8>)
    requires
        h265_push_step(st, ts, marker, p).1 matches Some(au) && au.is_keyframe,
    ensures
        ({
            let n = h265_push_step(st, ts, marker, p).0;
            let au = h265_push_step(st, ts, marker, p).1->Some_0;
            let pre = (match n.vps {
                Some(x) => seq![0u8, 0u8, 0u8, 1u8] + x,
                None => Seq::<u8>::empty(),
            }) + (match n.sps {
                Some(x) => seq![0u8, 0u8, 0u8, 1u8] + x,
                None => Seq::<u8>::empty(),
            }) + (match n.pps {
                Some(x) => seq![0u8, 0u8, 0u8, 1u8] + x,
                None => Seq::<u8>::empty(),
            });
            au.data.len() >= pre.len() && au.data.subrange(0, pre.len() as int) == pre
        }),
{
    let t = h265_header_type(p);
    let handled: Option<H265Model> = if t == H265NalUnitType::Fu {
        if p.len() < 3 {
            None
        } else {
            match h265_fu_apply(st, ts, p) {
                Some(s) => if !((p[2] & 0x80) != 0) && !h265_au_at(st, ts).fu_started {
                    None
                } else {
                    Some(s)
                },
                None => None,
            }
        }
    } else if t == H265NalUnitType::Ap {
        if p.len() < 4 {
            None
        } else {
            Some(ap_apply(h265_touch(st, ts), ts, p, 2))
        }
    } else {
        Some(h265_add_nal(st, ts, p))
    };
    let st2 = handled->Some_0;
    assert(h265_push_step(st, ts, marker, p) == h265_finalize(st2, ts));
    let b = st2.pending[ts];
    let pre = h265_with_start_code(st2.vps) + h265_with_start_code(st2.sps) + h265_with_start_code(st2.pps);
    let data = pre + concat_nals(b.nals);
    assert(h265_finalize(st2, ts).1->Some_0.data == data);
    assert(data.subrange(0, pre.len() as int) =~= pre);
}

/// An aggregation packet (a two-byte payload header of type 48, then each
/// NAL unit of at least two bytes behind its length as two big-endian
/// bytes) taken with the marker bit, with no access unit under way for its
/// timestamp, comes out at once: its NAL units in order, each behind a
/// start code, led by the stored video, sequence and picture parameter
/// sets exactly when one of the units is a random-access picture.
pub proof fn lemma_aggregation_packet(st: H265Model, ts: u32, h0: u8, h1: u8, units: Seq<Seq<u8>>)
    requires
        (h0 & 0x7E) >> 1u8 == 48u8,
        units.len() >= 1,
        forall|i: int| 0 <= i < units.len() ==> 2 <= #[trigger] units[i].len() < 65536,
        !st.pending.contains_key(ts),
    ensures
        ({
            let p = seq![h0, h1] + ap_body(units);
            let n = h265_push_step(st, ts, true, p).0;
            let r = h265_push_step(st, ts, true, p).1;
            &&& r matches Some(au) && au.timestamp == ts
            &&& r->Some_0.is_keyframe == (exists|i: int|
                0 <= i < units.len() && h265_is_keyframe(h265_header_type(#[trigger] units[i])))
            &&& r->Some_0.data == (if r->Some_0.is_keyframe {
                (match n.vps {
                    Some(x) => seq![0u8, 0u8, 0u8, 1u8] + x,
                    None => Seq::<u8>::empty(),
                }) + (match n.sps {
                    Some(x) => seq![0u8, 0u8, 0u8, 1u8] + x,
                    None => Seq::<u8>::empty(),
                }) + (match n.pps {
                    Some(x) => seq![0u8, 0u8, 0u8, 1u8] + x,
                    None => Seq::<u8>::empty(),
                })
            } else {
                Seq::<u8>::empty()
            }) + annex_b(units)
        }),
{
    let p = seq![h0, h1] + ap_body(units);
    lemma_ap_body_len(units);
    assert(p.len() >= 4);
    assert(p[0] == h0);
    assert(h265_header_type(p) == H265NalUnitType::Ap);
    let st0 = h265_touch(st, ts);
    assert(p.subrange(2, 2 + ap_body(units).len() as int) =~= ap_body(units));
    lemma_ap_walk(st0, ts, p, 2, units);
    let st2 = add_units(st0, ts, units);
    assert(ap_apply(st2, ts, p, p.len() as int) == st2);
    assert(h265_push_step(st, ts, true, p) == h265_finalize(st2, ts));
    lemma_add_units(st0, ts, units);
    assert(h265_au_at(st0, ts) == h265_empty_au());
    let b = st2.pending[ts];
    assert(b.nals =~= sc_units(units));
    assert(b.nals.len() > 0);
    lemma_annex_b(units);
    let au = h265_finalize(st2, ts).1->Some_0;
    assert(au.is_keyframe == any_keyframe(units));
    let pre = if au.is_keyframe {
        (match st2.vps {
            Some(x) => seq![0u8, 0u8, 0u8, 1u8] + x,
            None => Seq::<u8>::empty(),
        }) + (match st2.sps {
            Some(x) => seq![0u8, 0u8, 0u8, 1u8] + x,
            None => Seq::<u8>::empty(),
        }) + (match st2.pps {
            Some(x) => seq![0u8, 0u8, 0u8, 1u8] + x,
            None => Seq::<u8>::empty(),
        })
    } else {
        Seq::<u8>::empty()
    };
    assert(au.data =~= pre + annex_b(units));
}

struct H265AccessUnitBuilder {
    nals: Vec<Vec<u8>>,
    is_keyframe: bool,
    fu_started: bool,
    fu_nal_header: Option<[u8; 2]>,
    fu_data: Vec<u8>,
}

impl H265AccessUnitBuilder {
    spec fn model(&self) -> H265AuModel {
        H265AuModel {
            nals: self.nals@.map_values(|v: Vec<u8>| v@),
            is_keyframe: self.is_keyframe,
            fu_started: self.fu_started,
            fu_nal_header: match self.fu_nal_header {
                Some(h) => Some(h@),
                None => None,
            },
            fu_data: self.fu_data@,
        }
    }

    fn new() -> (r: H265AccessUnitBuilder)
        ensures
            r.model() == h265_empty_au(),
    {
        let r = H265AccessUnitBuilder {
            nals: Vec::new(),
            is_keyframe: false,
            fu_started: false,
            fu_nal_header: None,
            fu_data: Vec::new(),
        };
        assert(r.model().nals =~= Seq::<Seq<u8>>::empty());
        r
    }
}

/// Reassembles H.265 access units from RTP packets, one per timestamp,
/// completing a unit at the packet with the marker bit.
pub struct H265Reassembler {
    current_aus: BTreeMap<u32, H265AccessUnitBuilder>,
    completed_aus: Vec<H265AccessUnit>,
    max_aus: usize,
    vps: Option<bytes::Bytes>,
    sps: Option<bytes::Bytes>,
    pps: Option<bytes::Bytes>,
}

pub open spec fn h265_au_value(a: H265AccessUnit) -> H265AuOut {
    H265AuOut { timestamp: a.timestamp, data: bytes_view(a.data), is_keyframe: a.is_keyframe }
}

proof fn lemma_h265_keys()
    ensures
        vstd::laws_cmp::obeys_cmp::<u32>(),
{
    broadcast use vstd::laws_cmp::group_laws_cmp;
}

impl H265Reassembler {
    pub closed spec fn model(&self) -> H265Model {
        H265Model {
            pending: self.current_aus@.map_values(|b: H265AccessUnitBuilder| b.model()),
            completed: self.completed_aus@.map_values(|a: H265AccessUnit| h265_au_value(a)),
            max_aus: self.max_aus as nat,
            vps: crate::rtp::h264::opt_bytes(self.vps),
            sps: crate::rtp::h264::opt_bytes(self.sps),
            pps: crate::rtp::h264::opt_bytes(self.pps),
        }
    }

    /// A reassembler with nothing received, keeping the last 50 units.
    pub fn new() -> (r: H265Reassembler)
        ensures
            r.model().pending == Map::<u32, H265AuModel>::empty(),
            r.model().completed == Seq::<H265AuOut>::empty(),
            r.model().max_aus == 50,
            r.model().vps is None && r.model().sps is None && r.model().pps is None,
    {
        let r = H265Reassembler {
            current_aus: BTreeMap::new(),
            completed_aus: Vec::new(),
            max_aus: 50,
            vps: None,
            sps: None,
            pps: None,
        };
        assert(r.model().pending =~= Map::<u32, H265AuModel>::empty());
        assert(r.model().completed =~= Seq::<H265AuOut>::empty());
        r
    }

    fn take_builder(&mut self, ts: u32) -> (b: H265AccessUnitBuilder)
        ensures
            b.model() == h265_au_at(old(self).model(), ts),
            final(self).model() == (H265Model { pending: old(self).model().pending.remove(ts), ..old(self).model() }),
    {
        proof {
            lemma_h265_keys();
        }
        let b = match self.current_aus.remove(&ts) {
            Some(b) => b,
            None => H265AccessUnitBuilder::new(),
        };
        assert(self.model().pending =~= old(self).model().pending.remove(ts));
        b
    }

    fn put_builder(&mut self, ts: u32, b: H265AccessUnitBuilder)
        ensures
            final(self).model() == (H265Model { pending: old(self).model().pending.insert(ts, b.model()), ..old(self).model() }),
    {
        proof {
            lemma_h265_keys();
        }
        let ghost bm = b.model();
        self.current_aus.insert(ts, b);
        assert(self.model().pending =~= old(self).model().pending.insert(ts, bm));
    }

    fn touch(&mut self, ts: u32)
        ensures
            final(self).model() == h265_touch(old(self).model(), ts),
    {
        let b = self.take_builder(ts);
        self.put_builder(ts, b);
        assert(self.model().pending =~= h265_touch(old(self).model(), ts).pending);
    }

    fn add_nal(&mut self, ts: u32, nal: &[u8])
        requires
            nal@.len() >= 2,
        ensures
            final(self).model() == h265_add_nal(old(self).model(), ts, nal@),
    {
        let t = H265NalUnitType::from_u8((nal[0] & 0x7E) >> 1u8);
        match t {
            H265NalUnitType::Vps => {
                self.vps = Some(bytes_copy_from_slice(nal));
            },
            H265NalUnitType::Sps => {
                self.sps = Some(bytes_copy_from_slice(nal));
            },
            H265NalUnitType::Pps => {
                self.pps = Some(bytes_copy_from_slice(nal));
            },
            _ => {},
        }
        let mut b = self.take_builder(ts);
        let mut unit: Vec<u8> = Vec::new();
        unit.push(0);
        unit.push(0);
        unit.push(0);
        unit.push(1);
        push_all(&mut unit, nal);
        assert(unit@ =~= start_code() + nal@);
        let ghost before = b.model();
        b.nals.push(unit);
        if t.is_keyframe() {
            b.is_keyframe = true;
        }
        assert(b.model().nals =~= before.nals.push(start_code() + nal@));
        self.put_builder(ts, b);
        assert(self.model().pending =~= h265_add_nal(old(self).model(), ts, nal@).pending);
    }

    fn handle_fu(&mut self, ts: u32, payload: &[u8]) -> (done: bool)
        requires
            payload@.len() >= 3,
        ensures
            h265_fu_apply(old(self).model(), ts, payload@) == Some(final(self).model()),
            done == ((payload@[2] & 0x80) != 0 || h265_au_at(old(self).model(), ts).fu_started),
    {
        let start = (payload[2] & 0x80) != 0;
        let end = (payload[2] & 0x40) != 0;
        let fu_type = payload[2] & 0x3F;
        let mut b = self.take_builder(ts);
        let ghost au = b.model();
        if !start && !b.fu_started {
            self.put_builder(ts, b);
            assert(self.model().pending =~= h265_touch(old(self).model(), ts).pending);
            return false;
        }
        let frag = &payload[3..payload.len()];
        if start {
            let h0 = (payload[0] & 0x81) | ((fu_type << 1u8) & 0x7E);
            let hdr: [u8; 2] = [h0, payload[1]];
            b.fu_nal_header = Some(hdr);
            b.fu_started = true;
            b.fu_data.clear();
            b.fu_data.push(0);
            b.fu_data.push(0);
            b.fu_data.push(0);
            b.fu_data.push(1);
            b.fu_data.push(h0);
            b.fu_data.push(payload[1]);
            push_all(&mut b.fu_data, frag);
            if H265NalUnitType::from_u8(fu_type).is_keyframe() {
                b.is_keyframe = true;
            }
            assert(hdr@ =~= seq![h0, payload@[1]]);
            assert(b.fu_data@ =~= start_code() + seq![h0, payload@[1]] + frag@);
        } else {
            push_all(&mut b.fu_data, frag);
        }
        let ghost au1 = b.model();
        if end {
            let mut done: Vec<u8> = Vec::new();
            std::mem::swap(&mut done, &mut b.fu_data);
            b.nals.push(done);
            b.fu_started = false;
            b.fu_nal_header = None;
            assert(b.model().nals =~= au1.nals.push(au1.fu_data));
        }
        self.put_builder(ts, b);
        assert(self.model().pending =~= h265_fu_apply(old(self).model(), ts, payload@)->Some_0.pending);
        true
    }

    fn handle_ap(&mut self, ts: u32, payload: &[u8])
        requires
            payload@.len() >= 4,
        ensures
            final(self).model() == ap_apply(h265_touch(old(self).model(), ts), ts, payload@, 2),
    {
        self.touch(ts);
        let ghost st0 = self.model();
        let mut offset: usize = 2;
        let mut more = true;
        while more && offset <= payload.len() - 2
            invariant
                2 <= offset <= payload.len(),
                payload@.len() >= 4,
                ap_apply(st0, ts, payload@, 2) == ap_apply(self.model(), ts, payload@, offset as int),
                !more ==> ap_apply(self.model(), ts, payload@, offset as int) == self.model(),
            decreases payload@.len() - offset + (if more { 1int } else { 0int }),
        {
            let nal_len = read_be16(payload, offset) as usize;
            let start = offset + 2;
            if nal_len > payload.len() - start {
                more = false;
            } else {
                if nal_len >= 2 {
                    let nal = &payload[start..start + nal_len];
                    self.add_nal(ts, nal);
                }
                offset = start + nal_len;
            }
        }
    }

    fn finalize_au(&mut self, ts: u32) -> (r: Option<H265AccessUnit>)
        ensures
            (final(self).model(), match r {
                Some(a) => Some(h265_au_value(a)),
                None => None,
            }) == h265_finalize(old(self).model(), ts),
    {
        proof {
            lemma_h265_keys();
        }
        let builder = match self.current_aus.remove(&ts) {
            Some(b) => b,
            None => {
                assert(self.model().pending =~= old(self).model().pending);
                return None;
            },
        };
        assert(self.model().pending =~= old(self).model().pending.remove(ts));
        if builder.nals.len() == 0 {
            return None;
        }
        let mut data: Vec<u8> = Vec::new();
        if builder.is_keyframe {
            if let Some(vps) = &self.vps {
                data.push(0);
                data.push(0);
                data.push(0);
                data.push(1);
                push_all(&mut data, bytes_as_slice(vps));
            }
            if let Some(sps) = &self.sps {
                data.push(0);
                data.push(0);
                data.push(0);
                data.push(1);
                push_all(&mut data, bytes_as_slice(sps));
            }
            if let Some(pps) = &self.pps {
                data.push(0);
                data.push(0);
                data.push(0);
                data.push(1);
                push_all(&mut data, bytes_as_slice(pps));
            }
            assert(data@ =~= h265_with_start_code(old(self).model().vps) + h265_with_start_code(
                old(self).model().sps,
            ) + h265_with_start_code(old(self).model().pps));
        }
        let ghost prefix = data@;
        let mut i: usize = 0;
        while i < builder.nals.len()
            invariant
                i <= builder.nals@.len(),
                data@ == prefix + crate::rtp::h264::concat_nals(builder.model().nals.subrange(0, i as int)),
            decreases builder.nals@.len() - i,
        {
            push_all(&mut data, builder.nals[i].as_slice());
            i = i + 1;
            assert(builder.model().nals.subrange(0, i as int).drop_last() =~= builder.model().nals.subrange(0, i - 1));
        }
        assert(builder.model().nals.subrange(0, builder.nals@.len() as int) =~= builder.model().nals);
        let au = H265AccessUnit { timestamp: ts, data: bytes_from_vec(data), is_keyframe: builder.is_keyframe };
        let kept = H265AccessUnit { timestamp: au.timestamp, data: au.data.clone(), is_keyframe: au.is_keyframe };
        self.completed_aus.push(kept);
        if self.completed_aus.len() > self.max_aus {
            self.completed_aus.remove(0);
        }
        proof {
            let want = h265_finalize(old(self).model(), ts).0;
            assert(self.model().completed =~= want.completed);
            assert(self.model().pending =~= want.pending);
        }
        Some(au)
    }

    /// Takes one RTP packet; gives the access unit that its marker bit
    /// completes, if any.
    pub fn push_packet(&mut self, packet: &RtpPacket) -> (r: Option<H265AccessUnit>)
        ensures
            (final(self).model(), match r {
                Some(a) => Some(h265_au_value(a)),
                None => None,
            }) == h265_push_step(
                old(self).model(),
                packet.header.timestamp,
                packet.header.marker,
                bytes_view(packet.payload),
            ),
    {
        let payload = bytes_as_slice(&packet.payload);
        if payload.len() < 2 {
            return None;
        }
        let ts = packet.header.timestamp;
        let nal_type = match parse_h265_nal_header(payload) {
            Some((_, t, _, _)) => t,
            None => {
                return None;
            },
        };
        match nal_type {
            H265NalUnitType::Fu => {
                if payload.len() < 3 {
                    return None;
                }
                if !self.handle_fu(ts, payload) {
                    return None;
                }
            },
            H265NalUnitType::Ap => {
                if payload.len() < 4 {
                    return None;
                }
                self.handle_ap(ts, payload);
            },
            _ => {
                self.add_nal(ts, payload);
            },
        }
        if packet.header.marker {
            return self.finalize_au(ts);
        }
        None
    }

    /// The completed access units kept, oldest first.
    pub fn access_units(&self) -> (r: &[H265AccessUnit])
        ensures
            r@.map_values(|a: H265AccessUnit| h265_au_value(a)) == self.model().completed,
    {
        self.completed_aus.as_slice()
    }

    /// Forgets the completed access units.
    pub fn clear_access_units(&mut self)
        ensures
            final(self).model() == (H265Model { completed: Seq::empty(), ..old(self).model() }),
    {
        self.completed_aus.clear();
        assert(self.model().completed =~= Seq::<H265AuOut>::empty());
    }

    pub fn set_vps(&mut self, vps: bytes::Bytes)
        ensures
            final(self).model() == (H265Model { vps: Some(bytes_view(vps)), ..old(self).model() }),
    {
        self.vps = Some(vps);
    }

    pub fn set_sps(&mut self, sps: bytes::Bytes)
        ensures
            final(self).model() == (H265Model { sps: Some(bytes_view(sps)), ..old(self).model() }),
    {
        self.sps = Some(sps);
    }

    pub fn set_pps(&mut self, pps: bytes::Bytes)
        ensures
            final(self).model() == (H265Model { pps: Some(bytes_view(pps)), ..old(self).model() }),
    {
        self.pps = Some(pps);
    }
}

} // verus!
