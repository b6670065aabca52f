//! G.711 A-law and μ-law decoding into 16-bit PCM.
use vstd::prelude::*;
use crate::rtp::decoder::frame::{MediaFrame, MediaPacket};
use crate::rtp::decoder::trait_::{DecodeResult, Decoder};
use crate::rtp::decoder::types::{CodecType, MediaType, PixelFormat, SampleFormat};
use crate::shared_bytes::{bytes_from_vec, bytes_view};

verus! {

/// `2^k` for the exponents of G.711, `0 <= k <= 7`.
pub open spec fn pow2_small(k: int) -> int
    decreases k,
{
    if k <= 0 {
        1
    } else {
        2 * pow2_small(k - 1)
    }
}

/// The PCM value of an A-law byte: the even bits are inverted (xor 0x55),
/// then bit 7 is the sign (set for positive), bits 4-6 the exponent and
/// bits 0-3 the mantissa; the magnitude is `m * 16 + 8`, with the implied
/// leading 0x100 and a shift by `exponent - 1` when the exponent is not 0.
pub open spec fn alaw_value(alaw: u8) -> int {
    let a = alaw ^ 0x55u8;
    let sign = a & 0x80u8;
    let exponent = (a >> 4u8) & 0x07u8;
    let mantissa = a & 0x0Fu8;
    let base = mantissa * 16 + 8;
    let magnitude = if exponent == 0 {
        base
    } else {
        (base + 0x100) * pow2_small(exponent - 1)
    };
    if sign != 0 {
        magnitude
    } else {
        -magnitude
    }
}

/// The PCM value of a μ-law byte: all bits are inverted, then bit 7 is the
/// sign (set for negative, as in G.711), bits 4-6 the exponent and bits 0-3 the
/// mantissa; the magnitude is `((m * 8 + 0x84) << exponent) - 0x84`.
pub open spec fn ulaw_value(ulaw: u8) -> int {
    let u = !ulaw;
    let sign = u & 0x80u8;
    let exponent = (u >> 4u8) & 0x07u8;
    let mantissa = u & 0x0Fu8;
    let magnitude = (mantissa * 8 + 0x84) * pow2_small(exponent as int) - 0x84;
    if sign != 0 {
        -magnitude
    } else {
        magnitude
    }
}

proof fn lemma_pow2_small_bound(k: int)
    requires
        0 <= k <= 7,
    ensures
        1 <= pow2_small(k) <= 128,
        k <= 6 ==> pow2_small(k) <= 64,
{
    reveal_with_fuel(pow2_small, 8);
    assert(k == 0 || k == 1 || k == 2 || k == 3 || k == 4 || k == 5 || k == 6 || k == 7);
}

/// `2^k` for `k <= 7`.
fn pow2_u8(k: u8) -> (r: i16)
    requires
        k <= 7,
    ensures
        r as int == pow2_small(k as int),
{
    proof {
        reveal_with_fuel(pow2_small, 8);
    }
    match k {
        0 => 1,
        1 => 2,
        2 => 4,
        3 => 8,
        4 => 16,
        5 => 32,
        6 => 64,
        _ => 128,
    }
}

/// Splits a byte into its sign bit, its three exponent bits and its four
/// mantissa bits.
fn split_bits(b: u8) -> (r: (u8, u8, u8))
    ensures
        r.0 == b & 0x80u8,
        r.1 == (b >> 4u8) & 0x07u8,
        r.2 == b & 0x0Fu8,
        r.1 <= 7,
        r.2 <= 15,
{
    let e = (b >> 4u8) & 0x07u8;
    let m = b & 0x0Fu8;
    assert(e <= 7) by (bit_vector)
        requires
            e == (b >> 4u8) & 0x07u8,
    ;
    assert(m <= 15) by (bit_vector)
        requires
            m == b & 0x0Fu8,
    ;
    (b & 0x80u8, e, m)
}

/// The 16-bit PCM sample of an A-law byte.
pub fn alaw_decode(alaw: u8) -> (r: i16)
    ensures
        r as int == alaw_value(alaw),
{
    let a = alaw ^ 0x55u8;
    let (sign, exponent, mantissa) = split_bits(a);
    let mut pcm: i16 = (mantissa as i16) * 16 + 8;
    if exponent != 0 {
        let f = pow2_u8(exponent - 1);
        proof {
            lemma_pow2_small_bound(exponent - 1);
            assert((pcm + 0x100) * f <= 504 * 64) by (nonlinear_arith)
                requires
                    0 <= pcm + 0x100 <= 504,
                    1 <= f <= 64,
                    f == pow2_small(exponent - 1),
                    exponent <= 7,
                    pow2_small(exponent - 1) <= 64,
            ;
        }
        pcm = (pcm + 0x100) * f;
    }
    if sign != 0 {
        pcm
    } else {
        -pcm
    }
}

/// The 16-bit PCM sample of a μ-law byte.
pub fn ulaw_decode(ulaw: u8) -> (r: i16)
    ensures
        r as int == ulaw_value(ulaw),
{
    let u = !ulaw;
    let (sign, exponent, mantissa) = split_bits(u);
    let base: i16 = (mantissa as i16) * 8 + 0x84;
    let f = pow2_u8(exponent);
    proof {
        lemma_pow2_small_bound(exponent as int);
        assert(base * f <= 252 * 128) by (nonlinear_arith)
            requires
                0 <= base <= 252,
                1 <= f <= 128,
        ;
        assert(base * f >= 0x84) by (nonlinear_arith)
            requires
                0x84 <= base,
                1 <= f,
        ;
    }
    let pcm: i16 = base * f - 0x84;
    if sign != 0 {
        -pcm
    } else {
        pcm
    }
}

/// The PCM sample of an A-law byte.
pub fn alaw_to_pcm(alaw: u8) -> (r: i16)
    ensures
        r as int == alaw_value(alaw),
{
    alaw_decode(alaw)
}

/// The PCM sample of a μ-law byte.
pub fn ulaw_to_pcm(ulaw: u8) -> (r: i16)
    ensures
        r as int == ulaw_value(ulaw),
{
    ulaw_decode(ulaw)
}

/// The two little-endian bytes of a 16-bit sample.
pub open spec fn le_bytes(v: int) -> Seq<u8> {
    let u = if v < 0 {
        v + 0x10000
    } else {
        v
    };
    seq![(u % 256) as u8, (u / 256) as u8]
}

/// The little-endian 16-bit PCM of the samples that `value` gives for each
/// byte.
pub open spec fn pcm_le(data: Seq<u8>, alaw: bool) -> Seq<u8>
    decreases data.len(),
{
    if data.len() == 0 {
        Seq::empty()
    } else {
        let last = data.last();
        let v = if alaw {
            alaw_value(last)
        } else {
            ulaw_value(last)
        };
        pcm_le(data.drop_last(), alaw) + le_bytes(v)
    }
}

/// The little-endian bytes of a sample.
fn sample_bytes(v: i16) -> (r: (u8, u8))
    ensures
        seq![r.0, r.1] == le_bytes(v as int),
{
    let u: u16 = if v < 0 {
        (v as i32 + 0x10000) as u16
    } else {
        v as u16
    };
    ((u % 256) as u8, (u / 256) as u8)
}

/// Decodes every byte and appends its two PCM bytes.
fn decode_bytes(data: &[u8], alaw: bool) -> (r: Vec<u8>)
    ensures
        r@ == pcm_le(data@, alaw),
{
    let mut out: Vec<u8> = Vec::new();
    let mut i: usize = 0;
    while i < data.len()
        invariant
            i <= data@.len(),
            out@ == pcm_le(data@.subrange(0, i as int), alaw),
        decreases data@.len() - i,
    {
        let v = if alaw {
            alaw_decode(data[i])
        } else {
            ulaw_decode(data[i])
        };
        let (lo, hi) = sample_bytes(v);
        out.push(lo);
        out.push(hi);
        proof {
            let next = data@.subrange(0, i + 1);
            assert(next.drop_last() =~= data@.subrange(0, i as int));
            assert(next.last() == data@[i as int]);
        }
        i = i + 1;
        assert(out@ =~= pcm_le(data@.subrange(0, i as int), alaw));
    }
    assert(data@.subrange(0, data@.len() as int) =~= data@);
    out
}

/// `f` is the frame that a G.711 decoder of `rate` Hz and `channels`
/// channels makes of the non-empty `packet`: signed 16-bit PCM of every
/// byte (A-law where `alaw`, else μ-law), one sample per byte, with the
/// packet's time stamps.
pub open spec fn is_g711_frame(f: MediaFrame, rate: i32, channels: i32, packet: MediaPacket, alaw: bool) -> bool {
    &&& f.media_type == MediaType::Audio
    &&& f.pixel_format == PixelFormat::Unknown
    &&& f.width == 0
    &&& f.height == 0
    &&& f.plane_count == 0
    &&& f.sample_format == SampleFormat::S16
    &&& f.sample_rate == rate
    &&& f.channels == channels
    &&& f.channel_layout == 0
    &&& f.nb_samples == bytes_view(packet.data).len() as i32
    &&& f.bytes_per_sample == 2
    &&& !f.planar
    &&& bytes_view(f.data) == pcm_le(bytes_view(packet.data), alaw)
    &&& f.pts == packet.pts
    &&& f.dts == packet.dts
    &&& f.duration == 0
    &&& !f.keyframe
    &&& f.backend is None
}

/// What a G.711 decoder gives for `packet`: nothing for an empty packet,
/// else one frame of all its samples.
pub open spec fn g711_decodes(
    rate: i32,
    channels: i32,
    packet: MediaPacket,
    alaw: bool,
    r: DecodeResult<Option<MediaFrame>>,
) -> bool {
    if bytes_view(packet.data).len() == 0 {
        r == Ok::<Option<MediaFrame>, crate::rtp::decoder::trait_::DecodeError>(None)
    } else {
        r matches Ok(Some(f)) && is_g711_frame(f, rate, channels, packet, alaw)
    }
}

/// The frame of a G.711 decoder of `rate` Hz and `channels` channels for a
/// packet; `None` for an empty packet.
fn g711_frame(rate: i32, channels: i32, packet: &MediaPacket, alaw: bool) -> (r: Option<MediaFrame>)
    ensures
        g711_decodes(rate, channels, *packet, alaw, Ok(r)),
{
    if packet.is_empty() {
        return None;
    }
    let input = packet.as_slice();
    let pcm = decode_bytes(input, alaw);
    let nb_samples: i32 = input.len() as i32;
    let frame = MediaFrame::new_audio(
        SampleFormat::S16,
        rate,
        channels,
        nb_samples,
        bytes_from_vec(pcm),
    ).with_timestamps(packet.pts, packet.dts);
    Some(frame)
}

/// A G.711 A-law decoder.
pub struct G711ADecoder {
    sample_rate: i32,
    channels: i32,
}

impl G711ADecoder {
    pub closed spec fn rate_spec(&self) -> i32 {
        self.sample_rate
    }

    pub closed spec fn channels_spec(&self) -> i32 {
        self.channels
    }

    /// A decoder of 8000 Hz mono audio.
    pub fn new() -> (r: DecodeResult<G711ADecoder>)
        ensures
            r matches Ok(d) && d.rate_spec() == 8000 && d.channels_spec() == 1,
    {
        Ok(G711ADecoder { sample_rate: 8000, channels: 1 })
    }

    pub fn with_sample_rate(self, sample_rate: i32) -> (r: G711ADecoder)
        ensures
            r.rate_spec() == sample_rate,
            r.channels_spec() == self.channels_spec(),
    {
        G711ADecoder { sample_rate, channels: self.channels }
    }

    pub fn with_channels(self, channels: i32) -> (r: G711ADecoder)
        ensures
            r.rate_spec() == self.rate_spec(),
            r.channels_spec() == channels,
    {
        G711ADecoder { sample_rate: self.sample_rate, channels }
    }
}

impl Decoder for G711ADecoder {
    open spec fn spec_codec_type(&self) -> CodecType {
        CodecType::G711A
    }

    open spec fn spec_name(&self) -> Seq<char> {
        "G711ADecoder"@
    }

    /// An empty packet gives nothing; any other gives one frame of its
    /// samples at the decoder's rate and channel count.
    open spec fn spec_decodes(&self, packet: MediaPacket, r: DecodeResult<Option<MediaFrame>>) -> bool {
        g711_decodes(self.rate_spec(), self.channels_spec(), packet, true, r)
    }

    open spec fn spec_flushes(&self, r: DecodeResult<Vec<MediaFrame>>) -> bool {
        r matches Ok(v) && v@.len() == 0
    }

    /// The sample rate and channel count, which no call changes.
    open spec fn spec_state(&self) -> Seq<int> {
        seq![self.rate_spec() as int, self.channels_spec() as int]
    }

    open spec fn spec_decodes_to(
        &self,
        packet: MediaPacket,
        r: DecodeResult<Option<MediaFrame>>,
        next: Seq<int>,
    ) -> bool {
        next == self.spec_state()
    }

    open spec fn spec_flushes_to(&self, r: DecodeResult<Vec<MediaFrame>>, next: Seq<int>) -> bool {
        next == self.spec_state()
    }

    open spec fn spec_resets_to(&self, next: Seq<int>) -> bool {
        next == self.spec_state()
    }

    fn decode(&mut self, packet: &MediaPacket) -> (r: DecodeResult<Option<MediaFrame>>)
        ensures
            *final(self) == *old(self),
    {
        Ok(g711_frame(self.sample_rate, self.channels, packet, true))
    }

    /// Nothing is held between packets.
    fn flush(&mut self) -> (r: DecodeResult<Vec<MediaFrame>>)
        ensures
            *final(self) == *old(self),
    {
        Ok(Vec::new())
    }

    /// The decoder keeps no state between packets.
    fn reset(&mut self)
        ensures
            *final(self) == *old(self),
    {
    }

    fn codec_type(&self) -> (r: CodecType) {
        CodecType::G711A
    }

    fn name(&self) -> (r: &str) {
        "G711ADecoder"
    }
}

/// A G.711 μ-law decoder.
pub struct G711UDecoder {
    sample_rate: i32,
    channels: i32,
}

impl G711UDecoder {
    pub closed spec fn rate_spec(&self) -> i32 {
        self.sample_rate
    }

    pub closed spec fn channels_spec(&self) -> i32 {
        self.channels
    }

    /// A decoder of 8000 Hz mono audio.
    pub fn new() -> (r: DecodeResult<G711UDecoder>)
        ensures
            r matches Ok(d) && d.rate_spec() == 8000 && d.channels_spec() == 1,
    {
        Ok(G711UDecoder { sample_rate: 8000, channels: 1 })
    }

    pub fn with_sample_rate(self, sample_rate: i32) -> (r: G711UDecoder)
        ensures
            r.rate_spec() == sample_rate,
            r.channels_spec() == self.channels_spec(),
    {
        G711UDecoder { sample_rate, channels: self.channels }
    }

    pub fn with_channels(self, channels: i32) -> (r: G711UDecoder)
        ensures
            r.rate_spec() == self.rate_spec(),
            r.channels_spec() == channels,
    {
        G711UDecoder { sample_rate: self.sample_rate, channels }
    }
}

impl Decoder for G711UDecoder {
    open spec fn spec_codec_type(&self) -> CodecType {
        CodecType::G711U
    }

    open spec fn spec_name(&self) -> Seq<char> {
        "G711UDecoder"@
    }

    /// An empty packet gives nothing; any other gives one frame of its
    /// samples at the decoder's rate and channel count.
    open spec fn spec_decodes(&self, packet: MediaPacket, r: DecodeResult<Option<MediaFrame>>) -> bool {
        g711_decodes(self.rate_spec(), self.channels_spec(), packet, false, r)
    }

    open spec fn spec_flushes(&self, r: DecodeResult<Vec<MediaFrame>>) -> bool {
        r matches Ok(v) && v@.len() == 0
    }

    /// The sample rate and channel count, which no call changes.
    open spec fn spec_state(&self) -> Seq<int> {
        seq![self.rate_spec() as int, self.channels_spec() as int]
    }

    open spec fn spec_decodes_to(
        &self,
        packet: MediaPacket,
        r: DecodeResult<Option<MediaFrame>>,
        next: Seq<int>,
    ) -> bool {
        next == self.spec_state()
    }

    open spec fn spec_flushes_to(&self, r: DecodeResult<Vec<MediaFrame>>, next: Seq<int>) -> bool {
        next == self.spec_state()
    }

    open spec fn spec_resets_to(&self, next: Seq<int>) -> bool {
        next == self.spec_state()
    }

    fn decode(&mut self, packet: &MediaPacket) -> (r: DecodeResult<Option<MediaFrame>>)
        ensures
            *final(self) == *old(self),
    {
        Ok(g711_frame(self.sample_rate, self.channels, packet, false))
    }

    /// Nothing is held between packets.
    fn flush(&mut self) -> (r: DecodeResult<Vec<MediaFrame>>)
        ensures
            *final(self) == *old(self),
    {
        Ok(Vec::new())
    }

    /// The decoder keeps no state between packets.
    fn reset(&mut self)
        ensures
            *final(self) == *old(self),
    {
    }

    fn codec_type(&self) -> (r: CodecType) {
        CodecType::G711U
    }

    fn name(&self) -> (r: &str) {
        "G711UDecoder"
    }
}

/// A-law codes the two signs of each magnitude alike: flipping the sign bit
/// negates the sample.
pub proof fn lemma_alaw_sign_symmetry(alaw: u8)
    ensures
        alaw_value(alaw ^ 0x80u8) == -alaw_value(alaw),
{
    let a = alaw ^ 0x55u8;
    let b = (alaw ^ 0x80u8) ^ 0x55u8;
    assert(b == a ^ 0x80u8) by (bit_vector)
        requires
            a == alaw ^ 0x55u8,
            b == (alaw ^ 0x80u8) ^ 0x55u8,
    ;
    assert((b >> 4u8) & 0x07u8 == (a >> 4u8) & 0x07u8 && b & 0x0Fu8 == a & 0x0Fu8 && ((b & 0x80u8
        != 0) <==> (a & 0x80u8 == 0))) by (bit_vector)
        requires
            b == a ^ 0x80u8,
    ;
}

/// μ-law codes the two signs of each magnitude alike: flipping the sign
/// bit negates the sample.
pub proof fn lemma_ulaw_sign_symmetry(ulaw: u8)
    ensures
        ulaw_value(ulaw ^ 0x80u8) == -ulaw_value(ulaw),
{
    let a = !ulaw;
    let b = !(ulaw ^ 0x80u8);
    assert(b == a ^ 0x80u8) by (bit_vector)
        requires
            a == !ulaw,
            b == !(ulaw ^ 0x80u8),
    ;
    assert((b >> 4u8) & 0x07u8 == (a >> 4u8) & 0x07u8 && b & 0x0Fu8 == a & 0x0Fu8 && ((b & 0x80u8
        != 0) <==> (a & 0x80u8 == 0))) by (bit_vector)
        requires
            b == a ^ 0x80u8,
    ;
}

} // verus!
