//! The H.264 decoder. Decoding H.264 needs a native FFmpeg binding, which
//! this crate does not have, so the decoder can be made only as a default
//! value and reports the codec as unsupported.
use vstd::prelude::*;
use crate::rtp::decoder::frame::{MediaFrame, MediaPacket};
use crate::rtp::decoder::trait_::{
    DecodeError, DecodeResult, Decoder, codec_debug_name, codec_debug_str,
};
use crate::rtp::decoder::types::{CodecType, PixelFormat, pixel_code};
use crate::text::{push_str_chars, string_from_chars};

verus! {

/// An H.264 decoder.
pub struct H264Decoder {
    output_format: PixelFormat,
    initialized: bool,
}

impl H264Decoder {
    pub closed spec fn format_spec(&self) -> PixelFormat {
        self.output_format
    }

    pub closed spec fn is_initialized(&self) -> bool {
        self.initialized
    }

    /// Fails: no H.264 decoding backend is available.
    pub fn new() -> (r: DecodeResult<H264Decoder>)
        ensures
            r == Err::<H264Decoder, DecodeError>(DecodeError::UnsupportedCodec(CodecType::H264)),
    {
        Err(DecodeError::UnsupportedCodec(CodecType::H264))
    }

    /// Fails as `new` does.
    pub fn with_output_format(output_format: PixelFormat) -> (r: DecodeResult<H264Decoder>)
        ensures
            r == Err::<H264Decoder, DecodeError>(DecodeError::UnsupportedCodec(CodecType::H264)),
    {
        let mut decoder = match H264Decoder::new() {
            Ok(d) => d,
            Err(e) => {
                return Err(e);
            },
        };
        decoder.output_format = output_format;
        Ok(decoder)
    }
}

impl Default for H264Decoder {
    /// A decoder set to NV12 output, not initialised.
    fn default() -> (r: H264Decoder)
        ensures
            r.format_spec() == PixelFormat::NV12,
            !r.is_initialized(),
    {
        H264Decoder { output_format: PixelFormat::NV12, initialized: false }
    }
}

impl Decoder for H264Decoder {
    open spec fn spec_codec_type(&self) -> CodecType {
        CodecType::H264
    }

    open spec fn spec_name(&self) -> Seq<char> {
        "H264Decoder"@
    }

    /// A packet of another codec is refused; an H.264 packet is reported
    /// as unsupported.
    open spec fn spec_decodes(&self, packet: MediaPacket, r: DecodeResult<Option<MediaFrame>>) -> bool {
        &&& packet.codec_type != CodecType::H264 ==> (r matches Err(DecodeError::InvalidParameter(m)) && m@
            == "expected H264 codec, got "@ + codec_debug_name(packet.codec_type))
        &&& packet.codec_type == CodecType::H264 ==> r == Err::<Option<MediaFrame>, DecodeError>(
            DecodeError::UnsupportedCodec(CodecType::H264),
        )
    }

    open spec fn spec_flushes(&self, r: DecodeResult<Vec<MediaFrame>>) -> bool {
        r matches Ok(v) && v@.len() == 0
    }

    open spec fn spec_is_fresh(&self) -> bool {
        !self.is_initialized()
    }

    open spec fn spec_output_format(&self) -> PixelFormat {
        self.format_spec()
    }

    /// The output format's code, and 1 once initialised (else 0).
    open spec fn spec_state(&self) -> Seq<int> {
        seq![pixel_code(self.format_spec()) as int, if self.is_initialized() { 1int } else { 0 }]
    }

    /// Decoding changes nothing.
    open spec fn spec_decodes_to(
        &self,
        packet: MediaPacket,
        r: DecodeResult<Option<MediaFrame>>,
        next: Seq<int>,
    ) -> bool {
        next == self.spec_state()
    }

    open spec fn spec_flushes_to(&self, r: DecodeResult<Vec<MediaFrame>>, next: Seq<int>) -> bool {
        next == self.spec_state()
    }

    /// The format stays and the decoder is no longer initialised.
    open spec fn spec_resets_to(&self, next: Seq<int>) -> bool {
        next == seq![pixel_code(self.format_spec()) as int, 0int]
    }

    /// Refuses packets of other codecs, and reports H.264 as unsupported.
    fn decode(&mut self, packet: &MediaPacket) -> (r: DecodeResult<Option<MediaFrame>>)
        ensures
            packet.codec_type != CodecType::H264 ==> (r matches Err(
                DecodeError::InvalidParameter(m),
            ) && m@ == "expected H264 codec, got "@ + codec_debug_name(packet.codec_type)),
            packet.codec_type == CodecType::H264 ==> r == Err::<Option<MediaFrame>, DecodeError>(
                DecodeError::UnsupportedCodec(CodecType::H264),
            ),
            *final(self) == *old(self),
    {
        if packet.codec_type != CodecType::H264 {
            let mut v: Vec<char> = Vec::new();
            push_str_chars(&mut v, "expected H264 codec, got ");
            push_str_chars(&mut v, codec_debug_str(packet.codec_type));
            return Err(DecodeError::InvalidParameter(string_from_chars(v)));
        }
        Err(DecodeError::UnsupportedCodec(CodecType::H264))
    }

    fn flush(&mut self) -> (r: DecodeResult<Vec<MediaFrame>>)
        ensures
            r matches Ok(v) && v@.len() == 0,
            *final(self) == *old(self),
    {
        Ok(Vec::new())
    }

    fn reset(&mut self)
        ensures
            !final(self).is_initialized(),
            final(self).format_spec() == old(self).format_spec(),
    {
        self.initialized = false;
    }

    fn codec_type(&self) -> (r: CodecType)
        ensures
            r == CodecType::H264,
    {
        CodecType::H264
    }

    fn name(&self) -> (r: &str)
        ensures
            r@ == "H264Decoder"@,
    {
        "H264Decoder"
    }
}

} // verus!
