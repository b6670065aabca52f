//! Decoders of depacketised media, behind one interface.
//!
//! MJPEG is decoded in Rust through the `image` crate. H.264 and H.265 need
//! a native FFmpeg binding, which this crate does not have: they are
//! reported as unsupported.
pub mod types;
pub mod frame;
pub mod trait_;
pub mod mjpeg;
pub mod h264;
pub mod audio;
pub mod ffi;

use vstd::prelude::*;
use crate::rtp::decoder::mjpeg::MjpegDecoder;
use crate::rtp::decoder::trait_::{DecodeError, DecodeResult, Decoder, StatsDecoder};
use crate::rtp::decoder::types::{CodecType, PixelFormat};

verus! {

/// Whether a decoder of the codec can be made: MJPEG only.
pub open spec fn codec_supported(codec: CodecType) -> bool {
    codec == CodecType::MJPEG
}

/// A decoder of `codec`, giving RGBA frames.
pub fn create_decoder(codec: CodecType) -> (r: DecodeResult<Box<dyn Decoder>>)
    ensures
        r is Ok <==> codec_supported(codec),
        r matches Err(e) ==> e == DecodeError::UnsupportedCodec(codec),
        r matches Ok(d) ==> d.spec_codec_type() == codec && d.spec_output_format()
            == PixelFormat::RGBA && d.spec_is_fresh(),
{
    match codec {
        CodecType::MJPEG => Ok(Box::new(MjpegDecoder::new())),
        _ => Err(DecodeError::UnsupportedCodec(codec)),
    }
}

/// A decoder of `codec`, giving frames in `output_format`.
pub fn create_decoder_with_format(codec: CodecType, output_format: PixelFormat) -> (r: DecodeResult<
    Box<dyn Decoder>,
>)
    ensures
        r is Ok <==> codec_supported(codec),
        r matches Err(e) ==> e == DecodeError::UnsupportedCodec(codec),
        r matches Ok(d) ==> d.spec_codec_type() == codec && d.spec_output_format() == output_format
            && d.spec_is_fresh(),
{
    match codec {
        CodecType::MJPEG => Ok(Box::new(MjpegDecoder::with_output_format(output_format))),
        _ => Err(DecodeError::UnsupportedCodec(codec)),
    }
}

/// What decoder to make.
#[derive(Debug, Clone)]
pub struct DecoderConfig {
    pub codec_type: CodecType,
    pub output_format: PixelFormat,
    pub enable_stats: bool,
}

impl Default for DecoderConfig {
    /// MJPEG to RGBA, without statistics.
    fn default() -> (r: DecoderConfig)
        ensures
            r == (DecoderConfig {
                codec_type: CodecType::MJPEG,
                output_format: PixelFormat::RGBA,
                enable_stats: false,
            }),
    {
        DecoderConfig {
            codec_type: CodecType::MJPEG,
            output_format: PixelFormat::RGBA,
            enable_stats: false,
        }
    }
}

impl DecoderConfig {
    /// `codec_type` to RGBA, without statistics.
    pub fn new(codec_type: CodecType) -> (r: DecoderConfig)
        ensures
            r == (DecoderConfig {
                codec_type: codec_type,
                output_format: PixelFormat::RGBA,
                enable_stats: false,
            }),
    {
        let d = DecoderConfig::default();
        DecoderConfig { codec_type, ..d }
    }

    pub fn with_output_format(self, format: PixelFormat) -> (r: DecoderConfig)
        ensures
            r == (DecoderConfig { output_format: format, ..self }),
    {
        DecoderConfig { output_format: format, ..self }
    }

    pub fn with_stats(self, enable: bool) -> (r: DecoderConfig)
        ensures
            r == (DecoderConfig { enable_stats: enable, ..self }),
    {
        DecoderConfig { enable_stats: enable, ..self }
    }

    /// The decoder that the configuration describes, wrapped in a
    /// `StatsDecoder` when statistics are enabled.
    pub fn create_decoder(&self) -> (r: DecodeResult<Box<dyn Decoder>>)
        ensures
            r is Ok <==> codec_supported(self.codec_type),
            r matches Err(e) ==> e == DecodeError::UnsupportedCodec(self.codec_type),
            r matches Ok(d) ==> d.spec_codec_type() == self.codec_type && d.spec_output_format()
                == self.output_format && d.spec_is_fresh(),
    {
        let made = create_decoder_with_format(self.codec_type, self.output_format);
        if !self.enable_stats {
            return made;
        }
        match made {
            Ok(decoder) => Ok(Box::new(StatsDecoder::new(decoder))),
            Err(e) => Err(e),
        }
    }
}

/// Whether a decoder of the codec can be made.
pub fn is_codec_supported(codec: CodecType) -> (r: bool)
    ensures
        r == codec_supported(codec),
{
    match codec {
        CodecType::MJPEG => true,
        _ => false,
    }
}

/// The codecs that decoders can be made for.
pub fn supported_codecs() -> (r: Vec<CodecType>)
    ensures
        r@ == seq![CodecType::MJPEG],
        forall|c: CodecType| r@.contains(c) <==> codec_supported(c),
{
    let mut codecs: Vec<CodecType> = Vec::new();
    codecs.push(CodecType::MJPEG);
    proof {
        assert forall|c: CodecType| codecs@.contains(c) <==> codec_supported(c) by {
            if codec_supported(c) {
                assert(codecs@[0] == c);
            }
        }
    }
    codecs
}

} // verus!
