//! H.264 over RTP (RFC 6184): NAL unit types and access-unit reassembly.
use vstd::prelude::*;
use vstd::slice::slice_subrange;
use std::collections::BTreeMap;
use crate::rtp::packet::RtpPacket;
use crate::shared_bytes::{bytes_as_slice, bytes_copy_from_slice, bytes_from_vec, bytes_view};
use crate::wire::{get_be16, push_all, read_be16};

verus! {

/// H.264 NAL unit types, with the aggregation and fragmentation types of
/// RFC 6184.
#[derive(Debug, Clone, Copy, PartialEq, Eq, Structural)]
pub enum NalUnitType {
    Unspecified(u8),
    SliceNonIdr,
    SliceDataPartitionA,
    SliceDataPartitionB,
    SliceDataPartitionC,
    SliceIdr,
    Sei,
    Sps,
    Pps,
    Aud,
    EndOfSequence,
    EndOfStream,
    FillerData,
    FuA,
    FuB,
    StapA,
    StapB,
    Mtap16,
    Mtap24,
}

/// The type that the low five bits of `t` stand for; others keep `t` whole.
pub open spec fn nal_type_of(t: u8) -> NalUnitType {
    let v = t & 0x1F;
    if v == 1 {
        NalUnitType::SliceNonIdr
    } else if v == 2 {
        NalUnitType::SliceDataPartitionA
    } else if v == 3 {
        NalUnitType::SliceDataPartitionB
    } else if v == 4 {
        NalUnitType::SliceDataPartitionC
    } else if v == 5 {
        NalUnitType::SliceIdr
    } else if v == 6 {
        NalUnitType::Sei
    } else if v == 7 {
        NalUnitType::Sps
    } else if v == 8 {
        NalUnitType::Pps
    } else if v == 9 {
        NalUnitType::Aud
    } else if v == 10 {
        NalUnitType::EndOfSequence
    } else if v == 11 {
        NalUnitType::EndOfStream
    } else if v == 12 {
        NalUnitType::FillerData
    } else if v == 24 {
        NalUnitType::StapA
    } else if v == 25 {
        NalUnitType::StapB
    } else if v == 26 {
        NalUnitType::Mtap16
    } else if v == 27 {
        NalUnitType::Mtap24
    } else if v == 28 {
        NalUnitType::FuA
    } else if v == 29 {
        NalUnitType::FuB
    } else {
        NalUnitType::Unspecified(t)
    }
}

/// The number of a type.
pub open spec fn nal_type_code(n: NalUnitType) -> u8 {
    match n {
        NalUnitType::Unspecified(t) => t,
        NalUnitType::SliceNonIdr => 1,
        NalUnitType::SliceDataPartitionA => 2,
        NalUnitType::SliceDataPartitionB => 3,
        NalUnitType::SliceDataPartitionC => 4,
        NalUnitType::SliceIdr => 5,
        NalUnitType::Sei => 6,
        NalUnitType::Sps => 7,
        NalUnitType::Pps => 8,
        NalUnitType::Aud => 9,
        NalUnitType::EndOfSequence => 10,
        NalUnitType::EndOfStream => 11,
        NalUnitType::FillerData => 12,
        NalUnitType::FuA => 28,
        NalUnitType::FuB => 29,
        NalUnitType::StapA => 24,
        NalUnitType::StapB => 25,
        NalUnitType::Mtap16 => 26,
        NalUnitType::Mtap24 => 27,
    }
}

impl NalUnitType {
    pub fn from_u8(t: u8) -> (r: NalUnitType)
        ensures
            r == nal_type_of(t),
    {
        match t & 0x1F {
            1 => NalUnitType::SliceNonIdr,
            2 => NalUnitType::SliceDataPartitionA,
            3 => NalUnitType::SliceDataPartitionB,
            4 => NalUnitType::SliceDataPartitionC,
            5 => NalUnitType::SliceIdr,
            6 => NalUnitType::Sei,
            7 => NalUnitType::Sps,
            8 => NalUnitType::Pps,
            9 => NalUnitType::Aud,
            10 => NalUnitType::EndOfSequence,
            11 => NalUnitType::EndOfStream,
            12 => NalUnitType::FillerData,
            24 => NalUnitType::StapA,
            25 => NalUnitType::StapB,
            26 => NalUnitType::Mtap16,
            27 => NalUnitType::Mtap24,
            28 => NalUnitType::FuA,
            29 => NalUnitType::FuB,
            _ => NalUnitType::Unspecified(t),
        }
    }

    pub fn to_u8(&self) -> (r: u8)
        ensures
            r == nal_type_code(*self),
    {
        match self {
            NalUnitType::Unspecified(t) => *t,
            NalUnitType::SliceNonIdr => 1,
            NalUnitType::SliceDataPartitionA => 2,
            NalUnitType::SliceDataPartitionB => 3,
            NalUnitType::SliceDataPartitionC => 4,
            NalUnitType::SliceIdr => 5,
            NalUnitType::Sei => 6,
            NalUnitType::Sps => 7,
            NalUnitType::Pps => 8,
            NalUnitType::Aud => 9,
            NalUnitType::EndOfSequence => 10,
            NalUnitType::EndOfStream => 11,
            NalUnitType::FillerData => 12,
            NalUnitType::FuA => 28,
            NalUnitType::FuB => 29,
            NalUnitType::StapA => 24,
            NalUnitType::StapB => 25,
            NalUnitType::Mtap16 => 26,
            NalUnitType::Mtap24 => 27,
        }
    }
}

/// The forbidden bit, the reference priority and the type of a NAL header.
pub fn parse_nal_header(byte: u8) -> (r: (bool, u8, NalUnitType))
    ensures
        r == ((byte & 0x80) != 0, (byte & 0x60) >> 5u8, nal_type_of(byte & 0x1F)),
{
    let forbidden = (byte & 0x80) != 0;
    let nri = (byte & 0x60) >> 5u8;
    let nal_type = NalUnitType::from_u8(byte & 0x1F);
    (forbidden, nri, nal_type)
}

/// The header byte of a fragmentation unit.
#[derive(Debug, Clone)]
pub struct FuHeader {
    pub start: bool,
    pub end: bool,
    pub reserved: bool,
    pub nal_type: NalUnitType,
}

impl FuHeader {
    pub fn from_byte(byte: u8) -> (r: FuHeader)
        ensures
            r.start == ((byte & 0x80) != 0),
            r.end == ((byte & 0x40) != 0),
            r.reserved == ((byte & 0x20) != 0),
            r.nal_type == nal_type_of(byte & 0x1F),
    {
        FuHeader {
            start: (byte & 0x80) != 0,
            end: (byte & 0x40) != 0,
            reserved: (byte & 0x20) != 0,
            nal_type: NalUnitType::from_u8(byte & 0x1F),
        }
    }

    pub fn to_byte(&self) -> (r: u8)
        ensures
            r == ((if self.start { 0x80u8 } else { 0u8 }) | (if self.end { 0x40u8 } else { 0u8 }) | (
            if self.reserved { 0x20u8 } else { 0u8 }) | (nal_type_code(self.nal_type) & 0x1F)),
    {
        let s: u8 = if self.start { 0x80 } else { 0 };
        let e: u8 = if self.end { 0x40 } else { 0 };
        let r: u8 = if self.reserved { 0x20 } else { 0 };
        s | e | r | (self.nal_type.to_u8() & 0x1F)
    }
}

/// Writing back the header of a fragmentation unit gives the byte it was
/// read from.
pub proof fn lemma_fu_header_roundtrip(byte: u8)
    ensures
        ({
            let t = nal_type_code(nal_type_of(byte & 0x1F));
            ((if (byte & 0x80) != 0 { 0x80u8 } else { 0u8 }) | (if (byte & 0x40) != 0 { 0x40u8 } else { 0u8 }) | (
            if (byte & 0x20) != 0 { 0x20u8 } else { 0u8 }) | (t & 0x1F)) == byte
        }),
{
    let v = byte & 0x1F;
    assert(v < 32) by (bit_vector)
        requires
            v == byte & 0x1F,
    ;
    assert(v & 0x1F == v) by (bit_vector)
        requires
            v == byte & 0x1F,
    ;
    assert(nal_type_code(nal_type_of(v)) == v);
    assert(((if (byte & 0x80) != 0 { 0x80u8 } else { 0u8 }) | (if (byte & 0x40) != 0 { 0x40u8 } else { 0u8 }) | (
    if (byte & 0x20) != 0 { 0x20u8 } else { 0u8 }) | ((byte & 0x1F) & 0x1F)) == byte) by (bit_vector);
}

/// Reading a type's number back gives the type, for every named type and
/// for numbers below 32 that name none.
pub proof fn lemma_nal_type_roundtrip(n: NalUnitType)
    requires
        n matches NalUnitType::Unspecified(t) ==> t < 32 && nal_type_of(t) == n,
    ensures
        nal_type_of(nal_type_code(n)) == n,
{
    if let NalUnitType::Unspecified(t) = n {
    } else {
        assert(nal_type_code(n) < 32);
        let c = nal_type_code(n);
        assert(c < 32 ==> c & 0x1F == c) by (bit_vector);
    }
}

/// A reassembled access unit in Annex B form (start codes before each NAL).
#[derive(Debug, Clone)]
pub struct H264AccessUnit {
    pub timestamp: u32,
    pub data: bytes::Bytes,
    pub is_keyframe: bool,
}

/// An access unit as values.
pub struct AuOut {
    pub timestamp: u32,
    pub data: Seq<u8>,
    pub is_keyframe: bool,
}

/// An access unit under construction, as values.
pub struct AuModel {
    pub nals: Seq<Seq<u8>>,
    pub is_keyframe: bool,
    pub fu_started: bool,
    pub fu_nal_header: Option<u8>,
    pub fu_data: Seq<u8>,
}

/// The reassembler as values.
pub struct H264Model {
    pub pending: Map<u32, AuModel>,
    pub completed: Seq<AuOut>,
    pub max_aus: nat,
    pub sps: Option<Seq<u8>>,
    pub pps: Option<Seq<u8>>,
}

pub open spec fn start_code() -> Seq<u8> {
    seq![0u8, 0u8, 0u8, 1u8]
}

pub open spec fn empty_au() -> AuModel {
    AuModel {
        nals: Seq::empty(),
        is_keyframe: false,
        fu_started: false,
        fu_nal_header: None,
        fu_data: Seq::empty(),
    }
}

/// The access unit under construction for `ts`, empty where there is none.
pub open spec fn au_at(st: H264Model, ts: u32) -> AuModel {
    if st.pending.contains_key(ts) {
        st.pending[ts]
    } else {
        empty_au()
    }
}

/// One NAL unit: remembered where it is a parameter set, added with a start
/// code, and an IDR slice makes the unit a keyframe.
pub open spec fn add_nal(st: H264Model, ts: u32, nal: Seq<u8>) -> H264Model {
    let t = nal_type_of(nal[0] & 0x1F);
    let au = au_at(st, ts);
    H264Model {
        sps: if t == NalUnitType::Sps { Some(nal) } else { st.sps },
        pps: if t == NalUnitType::Pps { Some(nal) } else { st.pps },
        pending: st.pending.insert(
            ts,
            AuModel {
                nals: au.nals.push(start_code() + nal),
                is_keyframe: au.is_keyframe || t == NalUnitType::SliceIdr,
                ..au
            },
        ),
        ..st
    }
}

/// The NAL units of an aggregation packet from `off` on, added in turn; a
/// unit that runs past the end stops the walk.
pub open spec fn stap_apply(st: H264Model, ts: u32, p: Seq<u8>, off: int) -> H264Model
    decreases p.len() - off,
{
    if off < 0 || off + 2 > p.len() {
        st
    } else {
        let n = get_be16(p, off) as int;
        let s = off + 2;
        if s + n > p.len() {
            st
        } else {
            stap_apply(add_nal(st, ts, p.subrange(s, s + n)), ts, p, s + n)
        }
    }
}

/// Every NAL unit of the aggregation packet from `off` on is non-empty.
pub open spec fn stap_units_nonempty(p: Seq<u8>, off: int) -> bool
    decreases p.len() - off,
{
    if off < 0 || off + 2 > p.len() {
        true
    } else {
        let n = get_be16(p, off) as int;
        let s = off + 2;
        if s + n > p.len() {
            true
        } else {
            n > 0 && stap_units_nonempty(p, s + n)
        }
    }
}

/// A fragmentation unit (two header bytes and a fragment).
pub open spec fn fu_apply(st: H264Model, ts: u32, p: Seq<u8>) -> H264Model {
    let au = au_at(st, ts);
    let start = (p[1] & 0x80) != 0;
    let end = (p[1] & 0x40) != 0;
    let frag = p.subrange(2, p.len() as int);
    let h = (p[0] & 0xE0) | (p[1] & 0x1F);
    let au1 = if start {
        AuModel {
            fu_nal_header: Some(h),
            fu_started: true,
            fu_data: start_code() + seq![h] + frag,
            is_keyframe: nal_type_of(p[1] & 0x1F) == NalUnitType::SliceIdr,
            ..au
        }
    } else if au.fu_started {
        AuModel { fu_data: au.fu_data + frag, ..au }
    } else {
        au
    };
    let au2 = if end {
        AuModel { nals: au1.nals.push(au1.fu_data), fu_data: Seq::empty(), fu_started: false, ..au1 }
    } else {
        au1
    };
    H264Model { pending: st.pending.insert(ts, au2), ..st }
}

/// The bytes of NAL units one after another.
pub open spec fn concat_nals(nals: Seq<Seq<u8>>) -> Seq<u8>
    decreases nals.len(),
{
    if nals.len() == 0 {
        Seq::empty()
    } else {
        concat_nals(nals.drop_last()) + nals.last()
    }
}

/// A parameter set with its start code, or nothing.
pub open spec fn with_start_code(ps: Option<Seq<u8>>) -> Seq<u8> {
    match ps {
        Some(b) => start_code() + b,
        None => Seq::empty(),
    }
}

/// Completing the access unit for `ts`: it leaves the pending ones; one
/// with NAL units is returned and kept among the last `max_aus` completed
/// ones, a keyframe led by the known parameter sets.
pub open spec fn finalize(st: H264Model, ts: u32) -> (H264Model, Option<AuOut>) {
    if !st.pending.contains_key(ts) {
        (st, None)
    } else {
        let b = st.pending[ts];
        let st1 = H264Model { pending: st.pending.remove(ts), ..st };
        if b.nals.len() == 0 {
            (st1, None)
        } else {
            let body = concat_nals(b.nals);
            let data = if b.is_keyframe {
                with_start_code(st.sps) + with_start_code(st.pps) + body
            } else {
                body
            };
            let au = AuOut { timestamp: ts, data, is_keyframe: b.is_keyframe };
            let c = st.completed.push(au);
            let c2 = if c.len() > st.max_aus {
                c.subrange(1, c.len() as int)
            } else {
                c
            };
            (H264Model { completed: c2, ..st1 }, Some(au))
        }
    }
}

/// Taking a packet's payload `p` with timestamp `ts` and marker `marker`.
pub open spec fn push_step(st: H264Model, ts: u32, marker: bool, p: Seq<u8>) -> (H264Model, Option<AuOut>) {
    if p.len() == 0 {
        (st, None)
    } else {
        let t = nal_type_of(p[0] & 0x1F);
        let handled: Option<H264Model> = if t == NalUnitType::FuA {
            if p.len() < 2 {
                None
            } else {
                Some(fu_apply(st, ts, p))
            }
        } else if t == NalUnitType::FuB {
            if p.len() < 4 {
                None
            } else {
                Some(fu_apply(st, ts, seq![p[0], p[1]] + p.subrange(4, p.len() as int)))
            }
        } else if t == NalUnitType::StapA {
            if p.len() < 3 {
                None
            } else {
                Some(stap_apply(H264Model { pending: st.pending.insert(ts, au_at(st, ts)), ..st }, ts, p, 1))
            }
        } else if t == NalUnitType::StapB {
            let q = p.subrange(2, p.len() as int);
            if p.len() < 3 || q.len() < 3 {
                None
            } else {
                Some(stap_apply(H264Model { pending: st.pending.insert(ts, au_at(st, ts)), ..st }, ts, q, 1))
            }
        } else {
            Some(add_nal(st, ts, p))
        };
        match handled {
            None => (st, None),
            Some(st2) => if marker {
                finalize(st2, ts)
            } else {
                (st2, None)
            },
        }
    }
}

/// The FU indicator of a fragment of the NAL unit with header `h`: its
/// forbidden and priority bits with the FU-A type.
pub open spec fn fu_a_indicator(h: u8) -> u8 {
    (h & 0xE0) | 28
}

/// The payload of one FU-A fragment of the NAL unit with header `h`.
pub open spec fn fu_a_payload(h: u8, frag: Seq<u8>, first: bool, last: bool) -> Seq<u8> {
    let s: u8 = if first {
        0x80
    } else {
        0
    };
    let e: u8 = if last {
        0x40
    } else {
        0
    };
    seq![fu_a_indicator(h), s | e | (h & 0x1F)] + frag
}

/// The FU-A payloads that carry the NAL unit with header `h` whose body is
/// split into `frags`: the first with the start bit, the last with the end
/// bit.
pub open spec fn fu_a_payloads(h: u8, frags: Seq<Seq<u8>>) -> Seq<Seq<u8>> {
    Seq::new(frags.len(), |i: int| fu_a_payload(h, frags[i], i == 0, i == frags.len() - 1))
}

/// The reassembler after taking the payloads `ps`, in order, all with
/// timestamp `ts` and without the marker bit.
pub open spec fn take_payloads(st: H264Model, ts: u32, ps: Seq<Seq<u8>>) -> H264Model
    decreases ps.len(),
{
    if ps.len() == 0 {
        st
    } else {
        push_step(take_payloads(st, ts, ps.drop_last()), ts, false, ps.last()).0
    }
}

proof fn lemma_fu_a_bits(h: u8, first: bool, last: bool)
    ensures
        ({
            let s: u8 = if first { 0x80 } else { 0 };
            let e: u8 = if last { 0x40 } else { 0 };
            let b = s | e | (h & 0x1F);
            &&& fu_a_indicator(h) & 0x1F == 28
            &&& (fu_a_indicator(h) & 0x1F) & 0x1F == 28
            &&& ((b & 0x80) != 0) == first
            &&& ((b & 0x40) != 0) == last
            &&& (fu_a_indicator(h) & 0xE0) | (b & 0x1F) == h
        }),
{
    let s: u8 = if first { 0x80 } else { 0 };
    let e: u8 = if last { 0x40 } else { 0 };
    let b = s | e | (h & 0x1F);
    let ind = fu_a_indicator(h);
    assert(ind & 0x1F == 28 && (ind & 0x1F) & 0x1F == 28 && (ind & 0xE0) | (b & 0x1F) == h && ((b & 0x80) != 0) == (s == 0x80)
        && ((b & 0x40) != 0) == (e == 0x40)) by (bit_vector)
        requires
            ind == (h & 0xE0) | 28,
            b == s | e | (h & 0x1F),
            s == 0x80 || s == 0,
            e == 0x40 || e == 0,
    ;
}

/// After the first `k` of the fragments, the fragment under way holds the
/// start code, the header and the first `k` fragments.
proof fn lemma_fu_a_prefix(st: H264Model, ts: u32, h: u8, frags: Seq<Seq<u8>>, k: int)
    requires
        1 <= k < frags.len(),
    ensures
        ({
            let au = au_at(take_payloads(st, ts, fu_a_payloads(h, frags).subrange(0, k)), ts);
            &&& au.fu_started
            &&& au.fu_data == start_code() + seq![h] + concat_nals(frags.subrange(0, k))
            &&& au.nals == au_at(st, ts).nals
        }),
    decreases k,
{
    let ps = fu_a_payloads(h, frags);
    let p = ps[k - 1];
    lemma_fu_a_bits(h, k - 1 == 0, false);
    assert(p == fu_a_payload(h, frags[k - 1], k - 1 == 0, false));
    assert(p.subrange(2, p.len() as int) =~= frags[k - 1]);
    assert(ps.subrange(0, k).drop_last() =~= ps.subrange(0, k - 1));
    let q = ps.subrange(0, k);
    assert(q.last() == p);
    let prevst = take_payloads(st, ts, ps.subrange(0, k - 1));
    assert(take_payloads(st, ts, q) == push_step(prevst, ts, false, p).0);
    assert(p[0] == fu_a_indicator(h));
    assert(nal_type_of(p[0] & 0x1F) == NalUnitType::FuA);
    assert(push_step(prevst, ts, false, p).0 == fu_apply(prevst, ts, p));
    assert(frags.subrange(0, k).drop_last() =~= frags.subrange(0, k - 1));
    if k == 1 {
        assert(ps.subrange(0, 0) =~= Seq::<Seq<u8>>::empty());
        assert(frags.subrange(0, 0) =~= Seq::<Seq<u8>>::empty());
        assert(start_code() + seq![h] + frags[0] =~= start_code() + seq![h] + (Seq::<u8>::empty() + frags[0]));
    } else {
        lemma_fu_a_prefix(st, ts, h, frags, k - 1);
        let prev = au_at(take_payloads(st, ts, ps.subrange(0, k - 1)), ts);
        assert(prev.fu_data + frags[k - 1] =~= start_code() + seq![h] + concat_nals(frags.subrange(0, k)));
    }
}

/// The FU-A fragments of a NAL unit, taken in order and without the marker
/// bit, add that NAL unit behind a start code to the access unit of their
/// timestamp: fragmentation is undone whatever the fragments' sizes.
pub proof fn lemma_fu_a_reassembly(st: H264Model, ts: u32, nal: Seq<u8>, frags: Seq<Seq<u8>>)
    requires
        nal.len() >= 1,
        frags.len() >= 1,
        concat_nals(frags) == nal.subrange(1, nal.len() as int),
    ensures
        au_at(take_payloads(st, ts, fu_a_payloads(nal[0], frags)), ts).nals == au_at(st, ts).nals.push(
            start_code() + nal,
        ),
{
    let h = nal[0];
    let ps = fu_a_payloads(h, frags);
    let n = frags.len() as int;
    let p = ps[n - 1];
    lemma_fu_a_bits(h, n == 1, true);
    assert(p == fu_a_payload(h, frags[n - 1], n - 1 == 0, true));
    assert(p.subrange(2, p.len() as int) =~= frags[n - 1]);
    assert(ps.drop_last() =~= ps.subrange(0, n - 1));
    assert(ps.last() == p);
    let prevst = take_payloads(st, ts, ps.subrange(0, n - 1));
    assert(take_payloads(st, ts, ps) == push_step(prevst, ts, false, p).0);
    assert(p[0] == fu_a_indicator(h));
    assert(nal_type_of(p[0] & 0x1F) == NalUnitType::FuA);
    assert(push_step(prevst, ts, false, p).0 == fu_apply(prevst, ts, p));
    assert(frags.drop_last() =~= frags.subrange(0, n - 1));
    assert(nal =~= seq![h] + nal.subrange(1, nal.len() as int));
    if n == 1 {
        assert(ps.subrange(0, 0) =~= Seq::<Seq<u8>>::empty());
        assert(frags.drop_last() =~= Seq::<Seq<u8>>::empty());
        assert(start_code() + seq![h] + frags[0] =~= start_code() + nal);
    } else {
        lemma_fu_a_prefix(st, ts, h, frags, n - 1);
        let prev = au_at(take_payloads(st, ts, ps.subrange(0, n - 1)), ts);
        assert(prev.fu_data + frags[n - 1] =~= start_code() + nal);
    }
}

/// The body of an aggregation packet carrying `units`: each unit behind its
/// length as two big-endian bytes.
pub open spec fn ap_body(units: Seq<Seq<u8>>) -> Seq<u8>
    decreases units.len(),
{
    if units.len() == 0 {
        Seq::empty()
    } else {
        seq![(units[0].len() / 256) as u8, (units[0].len() % 256) as u8] + units[0] + ap_body(
            units.drop_first(),
        )
    }
}

/// NAL units in Annex B form: each behind the start code 00 00 00 01, one
/// after another.
pub open spec fn annex_b(units: Seq<Seq<u8>>) -> Seq<u8>
    decreases units.len(),
{
    if units.len() == 0 {
        Seq::empty()
    } else {
        seq![0u8, 0u8, 0u8, 1u8] + units[0] + annex_b(units.drop_first())
    }
}

/// The NAL units, each behind a start code.
pub open spec fn sc_units(units: Seq<Seq<u8>>) -> Seq<Seq<u8>> {
    Seq::new(units.len(), |i: int| start_code() + units[i])
}

/// The bytes of two lists of NAL units are those of each, one after the
/// other.
pub proof fn lemma_concat_append(a: Seq<Seq<u8>>, b: Seq<Seq<u8>>)
    ensures
        concat_nals(a + b) == concat_nals(a) + concat_nals(b),
    decreases b.len(),
{
    if b.len() == 0 {
        assert(a + b =~= a);
        assert(concat_nals(a) + Seq::<u8>::empty() =~= concat_nals(a));
    } else {
        lemma_concat_append(a, b.drop_last());
        assert((a + b).drop_last() =~= a + b.drop_last());
        assert(concat_nals(a) + concat_nals(b.drop_last()) + b.last() =~= concat_nals(a) + (concat_nals(
            b.drop_last(),
        ) + b.last()));
    }
}

/// NAL units behind start codes, one after another, are their Annex B
/// form.
pub proof fn lemma_annex_b(units: Seq<Seq<u8>>)
    ensures
        concat_nals(sc_units(units)) == annex_b(units),
    decreases units.len(),
{
    if units.len() > 0 {
        let rest = units.drop_first();
        lemma_annex_b(rest);
        let first = seq![start_code() + units[0]];
        assert(sc_units(units) =~= first + sc_units(rest));
        lemma_concat_append(first, sc_units(rest));
        assert(first.drop_last() =~= Seq::<Seq<u8>>::empty());
        assert(concat_nals(Seq::<Seq<u8>>::empty()) == Seq::<u8>::empty());
        assert(concat_nals(first) == concat_nals(first.drop_last()) + first.last());
        assert(concat_nals(first) =~= start_code() + units[0]);
        assert(start_code() + units[0] + annex_b(rest) =~= seq![0u8, 0u8, 0u8, 1u8] + units[0]
            + annex_b(rest));
    } else {
        assert(sc_units(units) =~= Seq::<Seq<u8>>::empty());
    }
}

/// An aggregation body is at least two bytes per unit: each unit's length
/// field, then the unit.
pub proof fn lemma_ap_body_len(units: Seq<Seq<u8>>)
    ensures
        ap_body(units).len() >= 2 * units.len(),
        units.len() > 0 ==> ap_body(units).len() == 2 + units[0].len() + ap_body(units.drop_first()).len(),
    decreases units.len(),
{
    if units.len() > 0 {
        lemma_ap_body_len(units.drop_first());
    }
}

/// The NAL units added one after another.
spec fn add_units(st: H264Model, ts: u32, units: Seq<Seq<u8>>) -> H264Model
    decreases units.len(),
{
    if units.len() == 0 {
        st
    } else {
        add_units(add_nal(st, ts, units[0]), ts, units.drop_first())
    }
}

spec fn any_idr(units: Seq<Seq<u8>>) -> bool {
    exists|i: int| 0 <= i < units.len() && nal_type_of((#[trigger] units[i])[0] & 0x1F) == NalUnitType::SliceIdr
}

/// Walking the units of an aggregation packet adds each in turn.
proof fn lemma_stap_walk(st: H264Model, ts: u32, p: Seq<u8>, off: int, units: Seq<Seq<u8>>)
    requires
        0 <= off,
        off + ap_body(units).len() <= p.len(),
        p.subrange(off, off + ap_body(units).len()) == ap_body(units),
        forall|i: int| 0 <= i < units.len() ==> 1 <= #[trigger] units[i].len() < 65536,
    ensures
        stap_apply(st, ts, p, off) == stap_apply(add_units(st, ts, units), ts, p, off + ap_body(units).len()),
    decreases units.len(),
{
    lemma_ap_body_len(units);
    if units.len() > 0 {
        let u = units[0];
        let rest = units.drop_first();
        let body = ap_body(units);
        assert(body[0] == (u.len() / 256) as u8);
        assert(body[1] == (u.len() % 256) as u8);
        assert(p[off] == body[0]);
        assert(p[off + 1] == body[1]);
        crate::wire::lemma_get_be16_digits(p, off);
        assert(get_be16(p, off) as int == u.len());
        let s = off + 2;
        assert(p.subrange(s, s + u.len()) =~= u) by {
            assert forall|k: int| 0 <= k < u.len() implies p.subrange(s, s + u.len())[k] == u[k] by {
                assert(p[s + k] == body[2 + k]);
            }
        }
        let off2 = s + u.len();
        assert(p.subrange(off2, off2 + ap_body(rest).len()) =~= ap_body(rest)) by {
            assert forall|k: int| 0 <= k < ap_body(rest).len() implies p.subrange(off2, off2 + ap_body(rest).len())[k] == ap_body(rest)[k] by {
                assert(p[off2 + k] == body[2 + u.len() + k]);
            }
        }
        assert forall|i: int| 0 <= i < rest.len() implies 1 <= #[trigger] rest[i].len() < 65536 by {
            assert(rest[i] == units[i + 1]);
        }
        lemma_stap_walk(add_nal(st, ts, u), ts, p, off2, rest);
    }
}

/// Adding units appends them, behind start codes, to the unit under way.
proof fn lemma_add_units(st: H264Model, ts: u32, units: Seq<Seq<u8>>)
    requires
        forall|i: int| 0 <= i < units.len() ==> 1 <= #[trigger] units[i].len(),
    ensures
        units.len() > 0 ==> add_units(st, ts, units).pending.contains_key(ts),
        units.len() == 0 ==> add_units(st, ts, units) == st,
        au_at(add_units(st, ts, units), ts).nals == au_at(st, ts).nals + sc_units(units),
        au_at(add_units(st, ts, units), ts).is_keyframe == (au_at(st, ts).is_keyframe || any_idr(units)),
    decreases units.len(),
{
    if units.len() == 0 {
        assert(au_at(st, ts).nals + sc_units(units) =~= au_at(st, ts).nals);
    } else {
        let u = units[0];
        let rest = units.drop_first();
        let st1 = add_nal(st, ts, u);
        assert forall|i: int| 0 <= i < rest.len() implies 1 <= #[trigger] rest[i].len() by {
            assert(rest[i] == units[i + 1]);
        }
        lemma_add_units(st1, ts, rest);
        assert(au_at(st1, ts).nals == au_at(st, ts).nals.push(start_code() + u));
        assert(au_at(st, ts).nals.push(start_code() + u) + sc_units(rest) =~= au_at(st, ts).nals
            + sc_units(units));
        if any_idr(units) && !(nal_type_of(u[0] & 0x1F) == NalUnitType::SliceIdr) {
            let i = choose|i: int| 0 <= i < units.len() && nal_type_of((#[trigger] units[i])[0] & 0x1F) == NalUnitType::SliceIdr;
            assert(rest[i - 1] == units[i]);
        }
        if any_idr(rest) {
            let i = choose|i: int| 0 <= i < rest.len() && nal_type_of((#[trigger] rest[i])[0] & 0x1F) == NalUnitType::SliceIdr;
            assert(units[i + 1] == rest[i]);
        }
        if nal_type_of(u[0] & 0x1F) == NalUnitType::SliceIdr {
            assert(units[0] == u);
        }
        if rest.len() == 0 {
            assert(add_units(st1, ts, rest) == st1);
        }
    }
}

/// A single-time aggregation packet (STAP-A: a header byte of type 24, then
/// each NAL unit behind its length as two big-endian bytes) taken with the
/// marker bit, with no access unit under way for its timestamp, comes out
/// at once: its NAL units in order, each behind a start code, led by the
/// stored sequence and picture parameter sets exactly when one of the
/// units is an IDR slice.
pub proof fn lemma_stap_a_packet(st: H264Model, ts: u32, h: u8, units: Seq<Seq<u8>>)
    requires
        h & 0x1F == 24,
        units.len() >= 1,
        forall|i: int| 0 <= i < units.len() ==> 1 <= #[trigger] units[i].len() < 65536,
        !st.pending.contains_key(ts),
    ensures
        ({
            let p = seq![h] + ap_body(units);
            let n = push_step(st, ts, true, p).0;
            let r = push_step(st, ts, true, p).1;
            &&& r matches Some(au) && au.timestamp == ts
            &&& r->Some_0.is_keyframe == (exists|i: int|
                0 <= i < units.len() && (#[trigger] units[i])[0] & 0x1F == 5)
            &&& r->Some_0.data == (if r->Some_0.is_keyframe {
                (match n.sps {
                    Some(x) => seq![0u8, 0u8, 0u8, 1u8] + x,
                    None => Seq::<u8>::empty(),
                }) + (match n.pps {
                    Some(x) => seq![0u8, 0u8, 0u8, 1u8] + x,
                    None => Seq::<u8>::empty(),
                })
            } else {
                Seq::<u8>::empty()
            }) + annex_b(units)
        }),
{
    let p = seq![h] + ap_body(units);
    lemma_ap_body_len(units);
    lemma_low_bits(h);
    assert(p[0] == h);
    assert(nal_type_of(p[0] & 0x1F) == NalUnitType::StapA);
    let st0 = H264Model { pending: st.pending.insert(ts, au_at(st, ts)), ..st };
    assert(p.subrange(1, 1 + ap_body(units).len() as int) =~= ap_body(units));
    lemma_stap_walk(st0, ts, p, 1, units);
    let st2 = add_units(st0, ts, units);
    assert(stap_apply(st2, ts, p, p.len() as int) == st2);
    assert(push_step(st, ts, true, p) == finalize(st2, ts));
    lemma_add_units(st0, ts, units);
    assert(au_at(st0, ts) == empty_au());
    let b = st2.pending[ts];
    assert(b.nals =~= sc_units(units));
    assert(b.nals.len() > 0);
    lemma_annex_b(units);
    let au = finalize(st2, ts).1->Some_0;
    assert forall|i: int| 0 <= i < units.len() implies (nal_type_of((#[trigger] units[i])[0] & 0x1F)
        == NalUnitType::SliceIdr) == (units[i][0] & 0x1F == 5) by {
        lemma_low_bits(units[i][0]);
    }
    assert(au.is_keyframe == any_idr(units));
    let pre = if au.is_keyframe {
        (match st2.sps {
            Some(x) => seq![0u8, 0u8, 0u8, 1u8] + x,
            None => Seq::<u8>::empty(),
        }) + (match st2.pps {
            Some(x) => seq![0u8, 0u8, 0u8, 1u8] + x,
            None => Seq::<u8>::empty(),
        })
    } else {
        Seq::<u8>::empty()
    };
    assert(au.data =~= pre + annex_b(units));
}

proof fn lemma_low_bits(x: u8)
    ensures
        (x & 0x1F) & 0x1F == x & 0x1F,
        x & 0x1F < 32,
{
    assert((x & 0x1F) & 0x1F == x & 0x1F && x & 0x1F < 32) by (bit_vector);
}

/// Every access unit that a packet completes as a keyframe begins with the
/// stored sequence parameter set behind a start code (where one is
/// stored), then the stored picture parameter set behind a start code
/// (where one is stored), before the unit's own NAL units.
pub proof fn lemma_keyframe_led_by_parameter_sets(st: H264Model, ts: u32, marker: bool, p: Seq<u8>)
    requires
        push_step(st, ts, marker, p).1 matches Some(au) && au.is_keyframe,
    ensures
        ({
            let n = push_step(st, ts, marker, p).0;
            let au = push_step(st, ts, marker, p).1->Some_0;
            let pre = (match n.sps {
                Some(x) => seq![0u8, 0u8, 0u8, 1u8] + x,
                None => Seq::<u8>::empty(),
            }) + (match n.pps {
                Some(x) => seq![0u8, 0u8, 0u8, 1u8] + x,
                None => Seq::<u8>::empty(),
            });
            au.data.len() >= pre.len() && au.data.subrange(0, pre.len() as int) == pre
        }),
{
    let t = nal_type_of(p[0] & 0x1F);
    let handled: Option<H264Model> = if t == NalUnitType::FuA {
        if p.len() < 2 {
            None
        } else {
            Some(fu_apply(st, ts, p))
        }
    } else if t == NalUnitType::FuB {
        if p.len() < 4 {
            None
        } else {
            Some(fu_apply(st, ts, seq![p[0], p[1]] + p.subrange(4, p.len() as int)))
        }
    } else if t == NalUnitType::StapA {
        if p.len() < 3 {
            None
        } else {
            Some(stap_apply(H264Model { pending: st.pending.insert(ts, au_at(st, ts)), ..st }, ts, p, 1))
        }
    } else if t == NalUnitType::StapB {
        let q = p.subrange(2, p.len() as int);
        if p.len() < 3 || q.len() < 3 {
            None
        } else {
            Some(stap_apply(H264Model { pending: st.pending.insert(ts, au_at(st, ts)), ..st }, ts, q, 1))
        }
    } else {
        Some(add_nal(st, ts, p))
    };
    let st2 = handled->Some_0;
    assert(push_step(st, ts, marker, p) == finalize(st2, ts));
    let b = st2.pending[ts];
    let pre = with_start_code(st2.sps) + with_start_code(st2.pps);
    let data = pre + concat_nals(b.nals);
    assert(finalize(st2, ts).1->Some_0.data == data);
    assert(data.subrange(0, pre.len() as int) =~= pre);
}

/// A lone NAL unit (types 1 to 23) taken with the marker bit, with no
/// access unit under way for its timestamp, comes out at once: behind a
/// start code, and, for an IDR slice (type 5), as a keyframe led by the
/// stored sequence and picture parameter sets, each behind a start code.
pub proof fn lemma_lone_nal_unit(st: H264Model, ts: u32, nal: Seq<u8>)
    requires
        nal.len() >= 1,
        1 <= nal[0] & 0x1F <= 23,
        !st.pending.contains_key(ts),
    ensures
        push_step(st, ts, true, nal).1 == Some(
            AuOut {
                timestamp: ts,
                is_keyframe: nal[0] & 0x1F == 5,
                data: (if nal[0] & 0x1F == 5 {
                    (match st.sps {
                        Some(x) => seq![0u8, 0u8, 0u8, 1u8] + x,
                        None => Seq::<u8>::empty(),
                    }) + (match st.pps {
                        Some(x) => seq![0u8, 0u8, 0u8, 1u8] + x,
                        None => Seq::<u8>::empty(),
                    })
                } else {
                    Seq::<u8>::empty()
                }) + seq![0u8, 0u8, 0u8, 1u8] + nal,
            },
        ),
{
    lemma_low_bits(nal[0]);
    let t = nal[0] & 0x1F;
    assert(t & 0x1F == t);
    let st2 = add_nal(st, ts, nal);
    assert(push_step(st, ts, true, nal) == finalize(st2, ts));
    let b = st2.pending[ts];
    assert(b.nals =~= seq![start_code() + nal]);
    assert(b.nals.drop_last() =~= Seq::<Seq<u8>>::empty());
    assert(concat_nals(Seq::<Seq<u8>>::empty()) == Seq::<u8>::empty());
    assert(concat_nals(b.nals) == concat_nals(b.nals.drop_last()) + b.nals.last());
    assert(concat_nals(b.nals) =~= start_code() + nal);
    assert(b.is_keyframe == (t == 5));
    let au = finalize(st2, ts).1->Some_0;
    let pre = if t == 5 {
        (match st.sps {
            Some(x) => seq![0u8, 0u8, 0u8, 1u8] + x,
            None => Seq::<u8>::empty(),
        }) + (match st.pps {
            Some(x) => seq![0u8, 0u8, 0u8, 1u8] + x,
            None => Seq::<u8>::empty(),
        })
    } else {
        Seq::<u8>::empty()
    };
    if t == 5 {
        assert(st2.sps == st.sps && st2.pps == st.pps);
    }
    assert(au.data =~= pre + seq![0u8, 0u8, 0u8, 1u8] + nal);
}

/// A payload on which taking the packet would index an empty NAL unit of an
/// aggregation packet.
pub open spec fn empty_aggregated_nal(p: Seq<u8>) -> bool {
    p.len() > 0 && {
        let t = nal_type_of(p[0] & 0x1F);
        ||| t == NalUnitType::StapA && p.len() >= 3 && !stap_units_nonempty(p, 1)
        ||| t == NalUnitType::StapB && p.len() >= 5 && !stap_units_nonempty(
            p.subrange(2, p.len() as int),
            1,
        )
    }
}

/// Whether every NAL unit of the aggregation packet `p` from `offset` on is
/// non-empty.
fn units_nonempty(p: &[u8], offset: usize) -> (r: bool)
    requires
        offset <= p@.len(),
    ensures
        r == stap_units_nonempty(p@, offset as int),
{
    let mut off = offset;
    while p.len() - off >= 2
        invariant
            off <= p@.len(),
            stap_units_nonempty(p@, offset as int) == stap_units_nonempty(p@, off as int),
        decreases p@.len() - off,
    {
        let n = read_be16(p, off) as usize;
        let start = off + 2;
        if n > p.len() - start {
            return true;
        }
        if n == 0 {
            return false;
        }
        off = start + n;
    }
    true
}

/// Whether `payload` is an aggregation packet (STAP-A or STAP-B) that holds
/// an empty NAL unit, which has no header to read.
pub fn has_empty_aggregated_nal(payload: &[u8]) -> (r: bool)
    ensures
        r == empty_aggregated_nal(payload@),
{
    if payload.len() == 0 {
        return false;
    }
    let t = NalUnitType::from_u8(payload[0] & 0x1F);
    match t {
        NalUnitType::StapA => payload.len() >= 3 && !units_nonempty(payload, 1),
        NalUnitType::StapB => {
            if payload.len() < 5 {
                return false;
            }
            let q = slice_subrange(payload, 2, payload.len());
            !units_nonempty(q, 1)
        },
        _ => false,
    }
}

struct AccessUnitBuilder {
    nals: Vec<Vec<u8>>,
    is_keyframe: bool,
    fu_started: bool,
    fu_nal_header: Option<u8>,
    fu_data: Vec<u8>,
}

impl AccessUnitBuilder {
    spec fn model(&self) -> AuModel {
        AuModel {
            nals: self.nals@.map_values(|v: Vec<u8>| v@),
            is_keyframe: self.is_keyframe,
            fu_started: self.fu_started,
            fu_nal_header: self.fu_nal_header,
            fu_data: self.fu_data@,
        }
    }

    fn new() -> (r: AccessUnitBuilder)
        ensures
            r.model() == empty_au(),
    {
        let r = AccessUnitBuilder {
            nals: Vec::new(),
            is_keyframe: false,
            fu_started: false,
            fu_nal_header: None,
            fu_data: Vec::new(),
        };
        assert(r.model().nals =~= Seq::<Seq<u8>>::empty());
        r
    }
}

/// Reassembles H.264 access units from RTP packets, one per timestamp,
/// completing a unit at the packet with the marker bit.
pub struct H264Reassembler {
    current_aus: BTreeMap<u32, AccessUnitBuilder>,
    completed_aus: Vec<H264AccessUnit>,
    max_aus: usize,
    sps: Option<bytes::Bytes>,
    pps: Option<bytes::Bytes>,
}

pub open spec fn au_value(a: H264AccessUnit) -> AuOut {
    AuOut { timestamp: a.timestamp, data: bytes_view(a.data), is_keyframe: a.is_keyframe }
}

pub open spec fn opt_bytes(b: Option<bytes::Bytes>) -> Option<Seq<u8>> {
    match b {
        Some(x) => Some(bytes_view(x)),
        None => None,
    }
}

proof fn lemma_u32_keys()
    ensures
        vstd::laws_cmp::obeys_cmp::<u32>(),
{
    broadcast use vstd::laws_cmp::group_laws_cmp;
}

impl H264Reassembler {
    pub closed spec fn model(&self) -> H264Model {
        H264Model {
            pending: self.current_aus@.map_values(|b: AccessUnitBuilder| b.model()),
            completed: self.completed_aus@.map_values(|a: H264AccessUnit| au_value(a)),
            max_aus: self.max_aus as nat,
            sps: opt_bytes(self.sps),
            pps: opt_bytes(self.pps),
        }
    }

    /// A reassembler with nothing received, keeping the last 50 units.
    pub fn new() -> (r: H264Reassembler)
        ensures
            r.model().pending == Map::<u32, AuModel>::empty(),
            r.model().completed == Seq::<AuOut>::empty(),
            r.model().max_aus == 50,
            r.model().sps is None && r.model().pps is None,
    {
        let r = H264Reassembler {
            current_aus: BTreeMap::new(),
            completed_aus: Vec::new(),
            max_aus: 50,
            sps: None,
            pps: None,
        };
        assert(r.model().pending =~= Map::<u32, AuModel>::empty());
        assert(r.model().completed =~= Seq::<AuOut>::empty());
        r
    }

    fn take_builder(&mut self, ts: u32) -> (b: AccessUnitBuilder)
        ensures
            b.model() == au_at(old(self).model(), ts),
            final(self).model() == (H264Model { pending: old(self).model().pending.remove(ts), ..old(self).model() }),
    {
        proof {
            lemma_u32_keys();
        }
        let b = match self.current_aus.remove(&ts) {
            Some(b) => b,
            None => AccessUnitBuilder::new(),
        };
        assert(self.model().pending =~= old(self).model().pending.remove(ts));
        b
    }

    fn put_builder(&mut self, ts: u32, b: AccessUnitBuilder)
        ensures
            final(self).model() == (H264Model { pending: old(self).model().pending.insert(ts, b.model()), ..old(self).model() }),
    {
        proof {
            lemma_u32_keys();
        }
        let ghost bm = b.model();
        self.current_aus.insert(ts, b);
        assert(self.model().pending =~= old(self).model().pending.insert(ts, bm));
    }

    fn add_nal(&mut self, ts: u32, nal: &[u8])
        requires
            nal@.len() > 0,
        ensures
            final(self).model() == add_nal(old(self).model(), ts, nal@),
    {
        let t = NalUnitType::from_u8(nal[0] & 0x1F);
        match t {
            NalUnitType::Sps => {
                self.sps = Some(bytes_copy_from_slice(nal));
            },
            NalUnitType::Pps => {
                self.pps = Some(bytes_copy_from_slice(nal));
            },
            _ => {},
        }
        let ghost st1 = self.model();
        let mut b = self.take_builder(ts);
        let mut unit: Vec<u8> = Vec::new();
        unit.push(0);
        unit.push(0);
        unit.push(0);
        unit.push(1);
        push_all(&mut unit, nal);
        assert(unit@ =~= start_code() + nal@);
        let ghost before = b.model();
        b.nals.push(unit);
        if matches!(t, NalUnitType::SliceIdr) {
            b.is_keyframe = true;
        }
        assert(b.model().nals =~= before.nals.push(start_code() + nal@));
        self.put_builder(ts, b);
        assert(self.model().pending =~= add_nal(old(self).model(), ts, nal@).pending);
    }

    fn handle_single_nal(&mut self, ts: u32, payload: &[u8])
        requires
            payload@.len() > 0,
        ensures
            final(self).model() == add_nal(old(self).model(), ts, payload@),
    {
        self.add_nal(ts, payload);
    }

    fn handle_fu_a(&mut self, ts: u32, payload: &[u8])
        requires
            payload@.len() >= 2,
        ensures
            final(self).model() == fu_apply(old(self).model(), ts, payload@),
    {
        let start = (payload[1] & 0x80) != 0;
        let end = (payload[1] & 0x40) != 0;
        let mut b = self.take_builder(ts);
        let ghost au = b.model();
        let frag = &payload[2..payload.len()];
        if start {
            let nal_header = (payload[0] & 0xE0) | (payload[1] & 0x1F);
            b.fu_nal_header = Some(nal_header);
            b.fu_started = true;
            b.fu_data.clear();
            b.fu_data.push(0);
            b.fu_data.push(0);
            b.fu_data.push(0);
            b.fu_data.push(1);
            b.fu_data.push(nal_header);
            push_all(&mut b.fu_data, frag);
            b.is_keyframe = matches!(NalUnitType::from_u8(payload[1] & 0x1F), NalUnitType::SliceIdr);
            assert(b.fu_data@ =~= start_code() + seq![nal_header] + frag@);
        } else if b.fu_started {
            push_all(&mut b.fu_data, frag);
        }
        let ghost au1 = b.model();
        if end {
            let mut done: Vec<u8> = Vec::new();
            std::mem::swap(&mut done, &mut b.fu_data);
            b.nals.push(done);
            b.fu_started = false;
            assert(b.model().nals =~= au1.nals.push(au1.fu_data));
        }
        self.put_builder(ts, b);
        assert(self.model().pending =~= fu_apply(old(self).model(), ts, payload@).pending);
    }

    fn handle_fu_b(&mut self, ts: u32, payload: &[u8])
        requires
            payload@.len() >= 4,
        ensures
            final(self).model() == fu_apply(
                old(self).model(),
                ts,
                seq![payload@[0], payload@[1]] + payload@.subrange(4, payload@.len() as int),
            ),
    {
        let mut modified: Vec<u8> = Vec::new();
        modified.push(payload[0]);
        modified.push(payload[1]);
        push_all(&mut modified, &payload[4..payload.len()]);
        assert(modified@ =~= seq![payload@[0], payload@[1]] + payload@.subrange(4, payload@.len() as int));
        self.handle_fu_a(ts, modified.as_slice());
    }

    fn handle_stap_a(&mut self, ts: u32, payload: &[u8])
        requires
            payload@.len() >= 3,
            stap_units_nonempty(payload@, 1),
        ensures
            final(self).model() == stap_apply(
                H264Model {
                    pending: old(self).model().pending.insert(ts, au_at(old(self).model(), ts)),
                    ..old(self).model()
                },
                ts,
                payload@,
                1,
            ),
    {
        let b = self.take_builder(ts);
        self.put_builder(ts, b);
        let ghost st0 = self.model();
        assert(st0.pending =~= old(self).model().pending.insert(ts, au_at(old(self).model(), ts)));
        let mut offset: usize = 1;
        let mut more = true;
        while more && offset <= payload.len() - 2
            invariant
                1 <= offset <= payload.len(),
                payload@.len() >= 3,
                stap_units_nonempty(payload@, offset as int),
                stap_apply(st0, ts, payload@, 1) == stap_apply(self.model(), ts, payload@, offset as int),
                !more ==> stap_apply(self.model(), ts, payload@, offset as int) == self.model(),
            decreases payload@.len() - offset + (if more { 1int } else { 0int }),
        {
            let nal_len = read_be16(payload, offset) as usize;
            let start = offset + 2;
            if nal_len > payload.len() - start {
                more = false;
            } else {
                let nal = &payload[start..start + nal_len];
                self.add_nal(ts, nal);
                offset = start + nal_len;
            }
        }
        assert(stap_apply(self.model(), ts, payload@, offset as int) == self.model());
    }

    fn handle_stap_b(&mut self, ts: u32, payload: &[u8])
        requires
            payload@.len() >= 5,
            stap_units_nonempty(payload@.subrange(2, payload@.len() as int), 1),
        ensures
            final(self).model() == stap_apply(
                H264Model {
                    pending: old(self).model().pending.insert(ts, au_at(old(self).model(), ts)),
                    ..old(self).model()
                },
                ts,
                payload@.subrange(2, payload@.len() as int),
                1,
            ),
    {
        self.handle_stap_a(ts, &payload[2..payload.len()]);
    }

    fn finalize_au(&mut self, ts: u32) -> (r: Option<H264AccessUnit>)
        ensures
            (final(self).model(), match r {
                Some(a) => Some(au_value(a)),
                None => None,
            }) == finalize(old(self).model(), ts),
    {
        proof {
            lemma_u32_keys();
        }
        let builder = match self.current_aus.remove(&ts) {
            Some(b) => b,
            None => {
                assert(self.model().pending =~= old(self).model().pending);
                return None;
            },
        };
        assert(self.model().pending =~= old(self).model().pending.remove(ts));
        if builder.nals.len() == 0 {
            return None;
        }
        let mut data: Vec<u8> = Vec::new();
        if builder.is_keyframe {
            if let Some(sps) = &self.sps {
                data.push(0);
                data.push(0);
                data.push(0);
                data.push(1);
                push_all(&mut data, bytes_as_slice(sps));
            }
            if let Some(pps) = &self.pps {
                data.push(0);
                data.push(0);
                data.push(0);
                data.push(1);
                push_all(&mut data, bytes_as_slice(pps));
            }
            assert(data@ =~= with_start_code(old(self).model().sps) + with_start_code(old(self).model().pps));
        }
        let ghost prefix = data@;
        let mut i: usize = 0;
        while i < builder.nals.len()
            invariant
                i <= builder.nals@.len(),
                data@ == prefix + concat_nals(builder.model().nals.subrange(0, i as int)),
            decreases builder.nals@.len() - i,
        {
            push_all(&mut data, builder.nals[i].as_slice());
            i = i + 1;
            assert(builder.model().nals.subrange(0, i as int).drop_last() =~= builder.model().nals.subrange(0, i - 1));
        }
        assert(builder.model().nals.subrange(0, builder.nals@.len() as int) =~= builder.model().nals);
        let au = H264AccessUnit { timestamp: ts, data: bytes_from_vec(data), is_keyframe: builder.is_keyframe };
        let kept = H264AccessUnit {
            timestamp: au.timestamp,
            data: au.data.clone(),
            is_keyframe: au.is_keyframe,
        };
        let ghost c0 = self.completed_aus@;
        self.completed_aus.push(kept);
        if self.completed_aus.len() > self.max_aus {
            self.completed_aus.remove(0);
        }
        proof {
            let want = finalize(old(self).model(), ts).0;
            assert(self.model().completed =~= want.completed);
            assert(self.model().pending =~= want.pending);
        }
        Some(au)
    }

    /// Takes one RTP packet; gives the access unit that its marker bit
    /// completes, if any. An aggregation packet that holds an empty NAL unit
    /// is dropped.
    pub fn push_packet(&mut self, packet: &RtpPacket) -> (r: Option<H264AccessUnit>)
        ensures
            empty_aggregated_nal(bytes_view(packet.payload)) ==> r is None && final(self).model()
                == old(self).model(),
            !empty_aggregated_nal(bytes_view(packet.payload)) ==> (final(self).model(), match r {
                Some(a) => Some(au_value(a)),
                None => None,
            }) == push_step(
                old(self).model(),
                packet.header.timestamp,
                packet.header.marker,
                bytes_view(packet.payload),
            ),
    {
        let payload = bytes_as_slice(&packet.payload);
        if payload.len() == 0 {
            return None;
        }
        if has_empty_aggregated_nal(payload) {
            return None;
        }
        let ts = packet.header.timestamp;
        let nal_type = NalUnitType::from_u8(payload[0] & 0x1F);
        match nal_type {
            NalUnitType::FuA => {
                if payload.len() < 2 {
                    return None;
                }
                self.handle_fu_a(ts, payload);
            },
            NalUnitType::FuB => {
                if payload.len() < 4 {
                    return None;
                }
                self.handle_fu_b(ts, payload);
            },
            NalUnitType::StapA => {
                if payload.len() < 3 {
                    return None;
                }
                self.handle_stap_a(ts, payload);
            },
            NalUnitType::StapB => {
                if payload.len() < 5 {
                    return None;
                }
                self.handle_stap_b(ts, payload);
            },
            _ => {
                self.handle_single_nal(ts, payload);
            },
        }
        if packet.header.marker {
            return self.finalize_au(ts);
        }
        None
    }

    /// The completed access units kept, oldest first.
    pub fn access_units(&self) -> (r: &[H264AccessUnit])
        ensures
            r@.map_values(|a: H264AccessUnit| au_value(a)) == self.model().completed,
    {
        self.completed_aus.as_slice()
    }

    /// Forgets the completed access units.
    pub fn clear_access_units(&mut self)
        ensures
            final(self).model() == (H264Model { completed: Seq::empty(), ..old(self).model() }),
    {
        self.completed_aus.clear();
        assert(self.model().completed =~= Seq::<AuOut>::empty());
    }

    /// Sets the sequence parameter set put before keyframes.
    pub fn set_sps(&mut self, sps: bytes::Bytes)
        ensures
            final(self).model() == (H264Model { sps: Some(bytes_view(sps)), ..old(self).model() }),
    {
        self.sps = Some(sps);
    }

    /// Sets the picture parameter set put before keyframes.
    pub fn set_pps(&mut self, pps: bytes::Bytes)
        ensures
            final(self).model() == (H264Model { pps: Some(bytes_view(pps)), ..old(self).model() }),
    {
        self.pps = Some(pps);
    }
}

} // verus!
