//! The decoder interface, its errors, and a decoder that keeps statistics.
use vstd::prelude::*;
use vstd::wrapping::u64_specs;
use crate::rtp::decoder::frame::{MediaFrame, MediaPacket};
use crate::rtp::decoder::types::{CodecType, PixelFormat};
use crate::rtp::error::{RtpError, rtp_error_text};
use crate::text::{push_str_chars, string_from_chars};

verus! {

/// What can go wrong while decoding.
#[derive(Debug, Clone, PartialEq, Eq)]
pub enum DecodeError {
    UnsupportedCodec(CodecType),
    DecodeFailed(String),
    InvalidData(String),
    InternalError(String),
    InvalidParameter(String),
    BufferOverflow,
    Timeout,
    /// An error of a lower layer, by its message.
    Underlying(String),
}

pub type DecodeResult<T> = Result<T, DecodeError>;

/// The name of a codec as it is printed for debugging.
pub open spec fn codec_debug_name(c: CodecType) -> Seq<char> {
    match c {
        CodecType::H264 => "H264"@,
        CodecType::H265 => "H265"@,
        CodecType::MJPEG => "MJPEG"@,
        CodecType::MPEG4 => "MPEG4"@,
        CodecType::VP8 => "VP8"@,
        CodecType::VP9 => "VP9"@,
        CodecType::AV1 => "AV1"@,
        CodecType::AAC => "AAC"@,
        CodecType::MP3 => "MP3"@,
        CodecType::OPUS => "OPUS"@,
        CodecType::G711A => "G711A"@,
        CodecType::G711U => "G711U"@,
        CodecType::Unknown => "Unknown"@,
    }
}

/// The name of a codec as it is printed for debugging.
pub fn codec_debug_str(c: CodecType) -> (r: &'static str)
    ensures
        r@ == codec_debug_name(c),
{
    match c {
        CodecType::H264 => "H264",
        CodecType::H265 => "H265",
        CodecType::MJPEG => "MJPEG",
        CodecType::MPEG4 => "MPEG4",
        CodecType::VP8 => "VP8",
        CodecType::VP9 => "VP9",
        CodecType::AV1 => "AV1",
        CodecType::AAC => "AAC",
        CodecType::MP3 => "MP3",
        CodecType::OPUS => "OPUS",
        CodecType::G711A => "G711A",
        CodecType::G711U => "G711U",
        CodecType::Unknown => "Unknown",
    }
}

/// The text shown for an error.
pub open spec fn decode_error_text(e: DecodeError) -> Seq<char> {
    match e {
        DecodeError::UnsupportedCodec(c) => "unsupported codec: "@ + codec_debug_name(c),
        DecodeError::DecodeFailed(m) => "decode failed: "@ + m@,
        DecodeError::InvalidData(m) => "invalid data: "@ + m@,
        DecodeError::InternalError(m) => "internal error: "@ + m@,
        DecodeError::InvalidParameter(m) => "invalid parameter: "@ + m@,
        DecodeError::BufferOverflow => "buffer overflow"@,
        DecodeError::Timeout => "timeout"@,
        DecodeError::Underlying(m) => "underlying error: "@ + m@,
    }
}

impl DecodeError {
    /// The message of the error.
    pub fn to_string(&self) -> (r: String)
        ensures
            r@ == decode_error_text(*self),
    {
        let mut v: Vec<char> = Vec::new();
        match self {
            DecodeError::UnsupportedCodec(c) => {
                push_str_chars(&mut v, "unsupported codec: ");
                push_str_chars(&mut v, codec_debug_str(*c));
            },
            DecodeError::DecodeFailed(m) => {
                push_str_chars(&mut v, "decode failed: ");
                push_str_chars(&mut v, m.as_str());
            },
            DecodeError::InvalidData(m) => {
                push_str_chars(&mut v, "invalid data: ");
                push_str_chars(&mut v, m.as_str());
            },
            DecodeError::InternalError(m) => {
                push_str_chars(&mut v, "internal error: ");
                push_str_chars(&mut v, m.as_str());
            },
            DecodeError::InvalidParameter(m) => {
                push_str_chars(&mut v, "invalid parameter: ");
                push_str_chars(&mut v, m.as_str());
            },
            DecodeError::BufferOverflow => {
                push_str_chars(&mut v, "buffer overflow");
            },
            DecodeError::Timeout => {
                push_str_chars(&mut v, "timeout");
            },
            DecodeError::Underlying(m) => {
                push_str_chars(&mut v, "underlying error: ");
                push_str_chars(&mut v, m.as_str());
            },
        }
        string_from_chars(v)
    }
}

impl From<RtpError> for DecodeError {
    /// An RTP error becomes an internal error carrying its message.
    fn from(err: RtpError) -> (r: DecodeError)
        ensures
            r matches DecodeError::InternalError(m) && m@ == rtp_error_text(err),
    {
        DecodeError::InternalError(err.to_string())
    }
}

/// Two strings with the same text are not known to be equal values, so the
/// conversion from an RTP error is described by the contract of `from`
/// itself rather than by a spec function.
impl vstd::std_specs::convert::FromSpecImpl<RtpError> for DecodeError {
    open spec fn obeys_from_spec() -> bool {
        false
    }

    open spec fn from_spec(err: RtpError) -> DecodeError {
        DecodeError::InternalError(choose|m: String| m@ == rtp_error_text(err))
    }
}

impl From<String> for DecodeError {
    fn from(err: String) -> (r: DecodeError) {
        DecodeError::DecodeFailed(err)
    }
}

impl vstd::std_specs::convert::FromSpecImpl<String> for DecodeError {
    open spec fn obeys_from_spec() -> bool {
        true
    }

    open spec fn from_spec(err: String) -> DecodeError {
        DecodeError::DecodeFailed(err)
    }
}

/// A decoder of one codec.
///
/// The spec functions describe a decoder for its contracts; a decoder
/// written outside this library that does not define them reports the
/// `Unknown` codec and pixel format, an empty name and an empty state, and
/// promises nothing of its results or of the state that a call leaves.
pub trait Decoder: Send {
    /// The codec that the decoder decodes.
    open spec fn spec_codec_type(&self) -> CodecType {
        CodecType::Unknown
    }

    /// The decoder's name.
    open spec fn spec_name(&self) -> Seq<char> {
        Seq::empty()
    }

    /// `r` is what decoding `packet` gives, the decoder being as `self` is.
    open spec fn spec_decodes(&self, packet: MediaPacket, r: DecodeResult<Option<MediaFrame>>) -> bool {
        true
    }

    /// `r` is what flushing gives, the decoder being as `self` is.
    open spec fn spec_flushes(&self, r: DecodeResult<Vec<MediaFrame>>) -> bool {
        true
    }

    /// The decoder holds nothing of an earlier stream.
    open spec fn spec_is_fresh(&self) -> bool {
        true
    }

    /// The pixel format of the frames that the decoder makes (`Unknown`
    /// where it makes no pictures or does not say).
    open spec fn spec_output_format(&self) -> PixelFormat {
        PixelFormat::Unknown
    }

    /// What the decoder carries from one call to the next, as numbers.
    open spec fn spec_state(&self) -> Seq<int> {
        Seq::empty()
    }

    /// `next` is the state that decoding `packet` into `r` leaves, the
    /// decoder being as `self` is.
    open spec fn spec_decodes_to(
        &self,
        packet: MediaPacket,
        r: DecodeResult<Option<MediaFrame>>,
        next: Seq<int>,
    ) -> bool {
        true
    }

    /// `next` is the state that flushing into `r` leaves, the decoder being
    /// as `self` is.
    open spec fn spec_flushes_to(&self, r: DecodeResult<Vec<MediaFrame>>, next: Seq<int>) -> bool {
        true
    }

    /// `next` is the state that a reset leaves, the decoder being as `self`
    /// is.
    open spec fn spec_resets_to(&self, next: Seq<int>) -> bool {
        true
    }

    /// Decodes one packet: `Ok(Some(frame))` where a frame is complete,
    /// `Ok(None)` where more data is needed first. The codec and the name
    /// stay.
    fn decode(&mut self, packet: &MediaPacket) -> (r: DecodeResult<Option<MediaFrame>>)
        ensures
            old(self).spec_decodes(*packet, r),
            old(self).spec_decodes_to(*packet, r, final(self).spec_state()),
            final(self).spec_codec_type() == old(self).spec_codec_type(),
            final(self).spec_name() == old(self).spec_name(),
            final(self).spec_output_format() == old(self).spec_output_format(),
    ;

    /// The frames that are still held, at the end of a stream.
    fn flush(&mut self) -> (r: DecodeResult<Vec<MediaFrame>>)
        ensures
            old(self).spec_flushes(r),
            old(self).spec_flushes_to(r, final(self).spec_state()),
            final(self).spec_codec_type() == old(self).spec_codec_type(),
            final(self).spec_name() == old(self).spec_name(),
            final(self).spec_output_format() == old(self).spec_output_format(),
    ;

    /// Drops what is held, to start a new stream.
    fn reset(&mut self)
        ensures
            final(self).spec_is_fresh(),
            old(self).spec_resets_to(final(self).spec_state()),
            final(self).spec_codec_type() == old(self).spec_codec_type(),
            final(self).spec_name() == old(self).spec_name(),
            final(self).spec_output_format() == old(self).spec_output_format(),
    ;

    /// The codec that the decoder decodes.
    fn codec_type(&self) -> (r: CodecType)
        ensures
            r == self.spec_codec_type(),
    ;

    /// The decoder's name, for logs.
    fn name(&self) -> (r: &str)
        ensures
            r@ == self.spec_name(),
    ;

    /// The decoder's name and codec.
    fn info(&self) -> (r: DecoderInfo)
        ensures
            r.name@ == self.spec_name(),
            r.codec_type == self.spec_codec_type(),
    {
        DecoderInfo { name: self.name().to_owned(), codec_type: self.codec_type() }
    }
}

/// A decoder's name and codec.
#[derive(Debug, Clone)]
pub struct DecoderInfo {
    pub name: String,
    pub codec_type: CodecType,
}

/// Counts kept by a `StatsDecoder`.
#[derive(Debug, Clone)]
pub struct DecoderStats {
    pub packets_in: u64,
    pub frames_out: u64,
    pub decode_errors: u64,
    pub frames_dropped: u64,
}

impl Default for DecoderStats {
    fn default() -> (r: DecoderStats)
        ensures
            r == (DecoderStats { packets_in: 0, frames_out: 0, decode_errors: 0, frames_dropped: 0 }),
    {
        DecoderStats { packets_in: 0, frames_out: 0, decode_errors: 0, frames_dropped: 0 }
    }
}

/// A decoder that counts the packets, frames and errors of another.
pub struct StatsDecoder<D: Decoder> {
    inner: D,
    stats: DecoderStats,
}

impl<D: Decoder> StatsDecoder<D> {
    /// The decoder that is wrapped.
    pub closed spec fn inner_spec(&self) -> D {
        self.inner
    }

    /// The counts so far.
    pub closed spec fn stats_spec(&self) -> DecoderStats {
        self.stats
    }

    /// Wraps `inner`, with all counts at zero.
    pub fn new(inner: D) -> (r: StatsDecoder<D>)
        ensures
            r.inner_spec() == inner,
            r.stats_spec() == (DecoderStats {
                packets_in: 0,
                frames_out: 0,
                decode_errors: 0,
                frames_dropped: 0,
            }),
    {
        StatsDecoder { inner, stats: DecoderStats::default() }
    }

    pub fn stats(&self) -> (r: &DecoderStats)
        ensures
            *r == self.stats_spec(),
    {
        &self.stats
    }

    pub fn stats_mut(&mut self) -> (r: &mut DecoderStats)
        ensures
            *r == old(self).stats_spec(),
            final(self).stats_spec() == *final(r),
            final(self).inner_spec() == old(self).inner_spec(),
    {
        &mut self.stats
    }

    /// Sets all counts back to zero.
    pub fn reset_stats(&mut self)
        ensures
            final(self).stats_spec() == (DecoderStats {
                packets_in: 0,
                frames_out: 0,
                decode_errors: 0,
                frames_dropped: 0,
            }),
            final(self).inner_spec() == old(self).inner_spec(),
    {
        self.stats = DecoderStats::default();
    }

    pub fn inner(&self) -> (r: &D)
        ensures
            *r == self.inner_spec(),
    {
        &self.inner
    }

    pub fn inner_mut(&mut self) -> (r: &mut D)
        ensures
            *r == old(self).inner_spec(),
            final(self).inner_spec() == *final(r),
            final(self).stats_spec() == old(self).stats_spec(),
    {
        &mut self.inner
    }
}

impl<D: Decoder> Decoder for StatsDecoder<D> {
    open spec fn spec_codec_type(&self) -> CodecType {
        self.inner_spec().spec_codec_type()
    }

    open spec fn spec_name(&self) -> Seq<char> {
        self.inner_spec().spec_name()
    }

    /// The wrapped decoder's result.
    open spec fn spec_decodes(&self, packet: MediaPacket, r: DecodeResult<Option<MediaFrame>>) -> bool {
        self.inner_spec().spec_decodes(packet, r)
    }

    open spec fn spec_flushes(&self, r: DecodeResult<Vec<MediaFrame>>) -> bool {
        self.inner_spec().spec_flushes(r)
    }

    /// The wrapped decoder is fresh and every count is zero.
    open spec fn spec_is_fresh(&self) -> bool {
        self.inner_spec().spec_is_fresh() && self.stats_spec() == (DecoderStats {
            packets_in: 0,
            frames_out: 0,
            decode_errors: 0,
            frames_dropped: 0,
        })
    }

    open spec fn spec_output_format(&self) -> PixelFormat {
        self.inner_spec().spec_output_format()
    }

    /// The wrapped decoder's state (the counts are stated apart).
    open spec fn spec_state(&self) -> Seq<int> {
        self.inner_spec().spec_state()
    }

    open spec fn spec_decodes_to(
        &self,
        packet: MediaPacket,
        r: DecodeResult<Option<MediaFrame>>,
        next: Seq<int>,
    ) -> bool {
        self.inner_spec().spec_decodes_to(packet, r, next)
    }

    open spec fn spec_flushes_to(&self, r: DecodeResult<Vec<MediaFrame>>, next: Seq<int>) -> bool {
        self.inner_spec().spec_flushes_to(r, next)
    }

    open spec fn spec_resets_to(&self, next: Seq<int>) -> bool {
        self.inner_spec().spec_resets_to(next)
    }

    /// Counts the packet, and the frame or the error that comes of it; the
    /// counts wrap around at their limit.
    fn decode(&mut self, packet: &MediaPacket) -> (r: DecodeResult<Option<MediaFrame>>)
        ensures
            final(self).stats_spec().packets_in == u64_specs::wrapping_add(
                old(self).stats_spec().packets_in,
                1,
            ),
            final(self).stats_spec().frames_out == (if r matches Ok(Some(_)) {
                u64_specs::wrapping_add(old(self).stats_spec().frames_out, 1)
            } else {
                old(self).stats_spec().frames_out
            }),
            final(self).stats_spec().decode_errors == (if r is Err {
                u64_specs::wrapping_add(old(self).stats_spec().decode_errors, 1)
            } else {
                old(self).stats_spec().decode_errors
            }),
            final(self).stats_spec().frames_dropped == old(self).stats_spec().frames_dropped,
            old(self).inner_spec().spec_decodes(*packet, r),
            old(self).inner_spec().spec_decodes_to(*packet, r, final(self).inner_spec().spec_state()),
            final(self).inner_spec().spec_codec_type() == old(self).inner_spec().spec_codec_type(),
            final(self).inner_spec().spec_name() == old(self).inner_spec().spec_name(),
            final(self).inner_spec().spec_output_format() == old(self).inner_spec().spec_output_format(),
    {
        self.stats.packets_in = self.stats.packets_in.wrapping_add(1);
        match self.inner.decode(packet) {
            Ok(Some(frame)) => {
                self.stats.frames_out = self.stats.frames_out.wrapping_add(1);
                Ok(Some(frame))
            },
            Ok(None) => Ok(None),
            Err(e) => {
                self.stats.decode_errors = self.stats.decode_errors.wrapping_add(1);
                Err(e)
            },
        }
    }

    /// Counts the frames that come out, or the error; the counts wrap
    /// around at their limit.
    fn flush(&mut self) -> (r: DecodeResult<Vec<MediaFrame>>)
        ensures
            final(self).stats_spec().packets_in == old(self).stats_spec().packets_in,
            final(self).stats_spec().frames_out == (match r {
                Ok(frames) => u64_specs::wrapping_add(
                    old(self).stats_spec().frames_out,
                    frames.len() as u64,
                ),
                Err(_) => old(self).stats_spec().frames_out,
            }),
            final(self).stats_spec().decode_errors == (if r is Err {
                u64_specs::wrapping_add(old(self).stats_spec().decode_errors, 1)
            } else {
                old(self).stats_spec().decode_errors
            }),
            final(self).stats_spec().frames_dropped == old(self).stats_spec().frames_dropped,
            old(self).inner_spec().spec_flushes(r),
            old(self).inner_spec().spec_flushes_to(r, final(self).inner_spec().spec_state()),
            final(self).inner_spec().spec_codec_type() == old(self).inner_spec().spec_codec_type(),
            final(self).inner_spec().spec_name() == old(self).inner_spec().spec_name(),
            final(self).inner_spec().spec_output_format() == old(self).inner_spec().spec_output_format(),
    {
        match self.inner.flush() {
            Ok(frames) => {
                self.stats.frames_out = self.stats.frames_out.wrapping_add(frames.len() as u64);
                Ok(frames)
            },
            Err(e) => {
                self.stats.decode_errors = self.stats.decode_errors.wrapping_add(1);
                Err(e)
            },
        }
    }

    /// Resets the wrapped decoder and sets all counts back to zero.
    fn reset(&mut self)
        ensures
            final(self).stats_spec() == (DecoderStats {
                packets_in: 0,
                frames_out: 0,
                decode_errors: 0,
                frames_dropped: 0,
            }),
            final(self).inner_spec().spec_is_fresh(),
            old(self).inner_spec().spec_resets_to(final(self).inner_spec().spec_state()),
            final(self).inner_spec().spec_codec_type() == old(self).inner_spec().spec_codec_type(),
            final(self).inner_spec().spec_name() == old(self).inner_spec().spec_name(),
            final(self).inner_spec().spec_output_format() == old(self).inner_spec().spec_output_format(),
    {
        self.inner.reset();
        self.reset_stats();
    }

    fn codec_type(&self) -> (r: CodecType) {
        self.inner.codec_type()
    }

    fn name(&self) -> (r: &str) {
        self.inner.name()
    }

    fn info(&self) -> (r: DecoderInfo) {
        self.inner.info()
    }
}

impl Decoder for Box<dyn Decoder> {
    open spec fn spec_codec_type(&self) -> CodecType {
        (**self).spec_codec_type()
    }

    open spec fn spec_name(&self) -> Seq<char> {
        (**self).spec_name()
    }

    open spec fn spec_decodes(&self, packet: MediaPacket, r: DecodeResult<Option<MediaFrame>>) -> bool {
        (**self).spec_decodes(packet, r)
    }

    open spec fn spec_flushes(&self, r: DecodeResult<Vec<MediaFrame>>) -> bool {
        (**self).spec_flushes(r)
    }

    open spec fn spec_is_fresh(&self) -> bool {
        (**self).spec_is_fresh()
    }

    open spec fn spec_output_format(&self) -> PixelFormat {
        (**self).spec_output_format()
    }

    open spec fn spec_state(&self) -> Seq<int> {
        (**self).spec_state()
    }

    open spec fn spec_decodes_to(
        &self,
        packet: MediaPacket,
        r: DecodeResult<Option<MediaFrame>>,
        next: Seq<int>,
    ) -> bool {
        (**self).spec_decodes_to(packet, r, next)
    }

    open spec fn spec_flushes_to(&self, r: DecodeResult<Vec<MediaFrame>>, next: Seq<int>) -> bool {
        (**self).spec_flushes_to(r, next)
    }

    open spec fn spec_resets_to(&self, next: Seq<int>) -> bool {
        (**self).spec_resets_to(next)
    }

    fn decode(&mut self, packet: &MediaPacket) -> (r: DecodeResult<Option<MediaFrame>>) {
        (**self).decode(packet)
    }

    fn flush(&mut self) -> (r: DecodeResult<Vec<MediaFrame>>) {
        (**self).flush()
    }

    fn reset(&mut self) {
        (**self).reset()
    }

    fn codec_type(&self) -> (r: CodecType) {
        (**self).codec_type()
    }

    fn name(&self) -> (r: &str) {
        (**self).name()
    }

    fn info(&self) -> (r: DecoderInfo) {
        (**self).info()
    }
}

} // verus!
