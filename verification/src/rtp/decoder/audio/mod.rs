//! Audio decoders.
pub mod g711;

use vstd::prelude::*;
use crate::rtp::decoder::audio::g711::{G711ADecoder, G711UDecoder};
use crate::rtp::decoder::trait_::{DecodeError, DecodeResult, Decoder};
use crate::rtp::decoder::types::CodecType;

verus! {

/// The audio codecs: AAC, MP3, Opus and the two G.711 laws.
pub fn is_supported_audio_codec(codec_type: CodecType) -> (r: bool)
    ensures
        r == (codec_type == CodecType::AAC || codec_type == CodecType::MP3 || codec_type
            == CodecType::OPUS || codec_type == CodecType::G711A || codec_type == CodecType::G711U),
{
    match codec_type {
        CodecType::AAC | CodecType::MP3 | CodecType::OPUS | CodecType::G711A | CodecType::G711U => true,
        _ => false,
    }
}

/// A decoder of the audio codec `codec_type`: the two G.711 laws, at
/// 8000 Hz mono; any other codec is unsupported.
pub fn create_audio_decoder(codec_type: CodecType) -> (r: DecodeResult<Box<dyn Decoder>>)
    ensures
        r is Ok <==> (codec_type == CodecType::G711A || codec_type == CodecType::G711U),
        r matches Err(e) ==> e == DecodeError::UnsupportedCodec(codec_type),
        r matches Ok(d) ==> d.spec_codec_type() == codec_type && d.spec_is_fresh(),
{
    match codec_type {
        CodecType::G711A => {
            let d = match G711ADecoder::new() {
                Ok(d) => d,
                Err(e) => {
                    return Err(e);
                },
            };
            Ok(Box::new(d))
        },
        CodecType::G711U => {
            let d = match G711UDecoder::new() {
                Ok(d) => d,
                Err(e) => {
                    return Err(e);
                },
            };
            Ok(Box::new(d))
        },
        _ => Err(DecodeError::UnsupportedCodec(codec_type)),
    }
}

} // verus!
