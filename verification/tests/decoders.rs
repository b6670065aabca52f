use bytes::Bytes;
use cam_toolkit::rtp::decoder::audio::g711::{
    G711ADecoder, G711UDecoder, alaw_decode, alaw_to_pcm, ulaw_decode, ulaw_to_pcm,
};
use cam_toolkit::rtp::decoder::audio::{create_audio_decoder, is_supported_audio_codec};
use cam_toolkit::rtp::decoder::ffi::FfiErrorCode;
use cam_toolkit::rtp::decoder::frame::{MediaFrame, MediaPacket};
use cam_toolkit::rtp::decoder::h264::H264Decoder;
use cam_toolkit::rtp::decoder::mjpeg::{get_jpeg_dimensions, MjpegDecoder, swap_red_blue};
use cam_toolkit::rtp::decoder::trait_::{
    DecodeError, DecodeResult, Decoder, DecoderStats, StatsDecoder,
};
use cam_toolkit::rtp::decoder::types::{CodecType, MediaType, PixelFormat, SampleFormat};
use cam_toolkit::rtp::decoder::{
    DecoderConfig, create_decoder, create_decoder_with_format, is_codec_supported,
    supported_codecs,
};
use cam_toolkit::rtp::error::RtpError;

struct DummyDecoder {
    codec_type: CodecType,
}

impl Decoder for DummyDecoder {
    fn decode(&mut self, _packet: &MediaPacket) -> DecodeResult<Option<MediaFrame>> {
        Ok(None)
    }

    fn flush(&mut self) -> DecodeResult<Vec<MediaFrame>> {
        Ok(Vec::new())
    }

    fn reset(&mut self) {}

    fn codec_type(&self) -> CodecType {
        self.codec_type
    }

    fn name(&self) -> &str {
        "DummyDecoder"
    }
}

#[test]
fn test_alaw_decode() {
    let pcm_pos = alaw_to_pcm(0xD5);
    let pcm_neg = alaw_to_pcm(0x55);
    assert_eq!(pcm_pos, 8);
    assert_eq!(pcm_neg, -8);
    assert_eq!(pcm_pos, -pcm_neg);
}

#[test]
fn test_ulaw_decode() {
    let pcm1 = ulaw_to_pcm(0xFF);
    let pcm2 = ulaw_to_pcm(0x7F);
    assert_eq!(pcm1, pcm2);
    assert_eq!(pcm1, 0);
}

#[test]
fn alaw_extremes() {
    // 0xAA: exponent 7, mantissa 15, positive: (15 * 16 + 8 + 256) << 6.
    assert_eq!(alaw_decode(0xAA), 32256);
    assert_eq!(alaw_decode(0x2A), -32256);
}

#[test]
fn ulaw_extremes() {
    // 0x80: inverted 0x7F, sign bit clear, exponent 7, mantissa 15: positive.
    assert_eq!(ulaw_decode(0x80), 32124);
    assert_eq!(ulaw_decode(0x00), -32124);
    assert_eq!(ulaw_decode(0x7E), -8);
    assert_eq!(ulaw_decode(0xFE), 8);
}

#[test]
fn g711_sign_flip_negates() {
    for b in 0..=255u8 {
        assert_eq!(alaw_decode(b ^ 0x80), -alaw_decode(b));
        assert_eq!(ulaw_decode(b ^ 0x80), -ulaw_decode(b));
    }
}

#[test]
fn g711_decoders_make_pcm() {
    let mut a = G711ADecoder::new().unwrap().with_sample_rate(16000).with_channels(2);
    let packet = MediaPacket::new(CodecType::G711A, Bytes::from(vec![0xD5u8, 0x55]));
    let frame = a.decode(&packet).unwrap().unwrap();
    assert_eq!(&frame.data[..], &[8u8, 0, 0xF8, 0xFF][..]);
    let empty = MediaPacket::new(CodecType::G711A, Bytes::new());
    assert!(a.decode(&empty).unwrap().is_none());
    let mut u = G711UDecoder::new().unwrap();
    let packet = MediaPacket::new(CodecType::G711U, Bytes::from(vec![0u8; 160]));
    let pcm = u.decode(&packet).unwrap().unwrap().data;
    assert_eq!(pcm.len(), 320);
    assert_eq!(&pcm[0..2], &(-32124i16).to_le_bytes());
}

#[test]
fn test_g711a_decoder() {
    let mut decoder = G711ADecoder::new().unwrap();
    let test_data = Bytes::from(vec![0x00; 160]);
    let packet = MediaPacket::new(CodecType::G711A, test_data).with_timestamps(0, 0);
    let result = decoder.decode(&packet);
    assert!(result.is_ok());
    let frame_opt = result.unwrap();
    assert!(frame_opt.is_some());
    let frame = frame_opt.unwrap();
    assert!(frame.is_audio());
    assert_eq!(frame.sample_format, SampleFormat::S16);
    assert_eq!(frame.sample_rate, 8000);
    assert_eq!(frame.nb_samples, 160);
    assert_eq!(frame.data.len(), 320);
}

#[test]
fn test_g711u_decoder() {
    let mut decoder = G711UDecoder::new().unwrap();
    let test_data = Bytes::from(vec![0x00; 160]);
    let packet = MediaPacket::new(CodecType::G711U, test_data).with_timestamps(0, 0);
    let result = decoder.decode(&packet);
    assert!(result.is_ok());
    let frame_opt = result.unwrap();
    assert!(frame_opt.is_some());
    let frame = frame_opt.unwrap();
    assert!(frame.is_audio());
    assert_eq!(frame.sample_format, SampleFormat::S16);
    assert_eq!(frame.nb_samples, 160);
}

#[test]
fn g711_decoder_frames_carry_settings_and_time() {
    let mut decoder = G711ADecoder::new().unwrap().with_sample_rate(16000).with_channels(2);
    let packet = MediaPacket::new(CodecType::G711A, Bytes::from(vec![0xD5u8, 0x55]))
        .with_timestamps(40, 30);
    let frame = decoder.decode(&packet).unwrap().unwrap();
    assert_eq!(frame.sample_rate, 16000);
    assert_eq!(frame.channels, 2);
    assert_eq!(frame.nb_samples, 2);
    assert_eq!(frame.bytes_per_sample, 2);
    assert!(!frame.planar);
    assert_eq!(frame.pts, 40);
    assert_eq!(frame.dts, 30);
    assert_eq!(frame.media_type, MediaType::Audio);
    assert_eq!(&frame.data[..], &[8u8, 0, 0xF8, 0xFF][..]);
    let empty = MediaPacket::new(CodecType::G711A, Bytes::new());
    assert!(decoder.decode(&empty).unwrap().is_none());
    assert!(decoder.flush().unwrap().is_empty());
    assert_eq!(decoder.codec_type(), CodecType::G711A);
    assert_eq!(decoder.name(), "G711ADecoder");
    let u = G711UDecoder::new().unwrap();
    assert_eq!(u.codec_type(), CodecType::G711U);
    assert_eq!(u.name(), "G711UDecoder");
}

#[test]
fn test_create_audio_decoder() {
    let result = create_audio_decoder(CodecType::G711A);
    assert!(result.is_ok());
    let result = create_audio_decoder(CodecType::G711U);
    assert!(result.is_ok());
    let result = create_audio_decoder(CodecType::H264);
    assert!(result.is_err());
}

#[test]
fn create_audio_decoder_reports_the_codec() {
    assert_eq!(create_audio_decoder(CodecType::G711U).unwrap().codec_type(), CodecType::G711U);
    assert_eq!(create_audio_decoder(CodecType::G711A).unwrap().name(), "G711ADecoder");
    match create_audio_decoder(CodecType::AAC) {
        Err(e) => assert_eq!(e, DecodeError::UnsupportedCodec(CodecType::AAC)),
        Ok(_) => panic!("AAC has no decoder here"),
    }
}

#[test]
fn test_is_supported_audio_codec() {
    assert!(is_supported_audio_codec(CodecType::AAC));
    assert!(is_supported_audio_codec(CodecType::G711A));
    assert!(is_supported_audio_codec(CodecType::G711U));
    assert!(!is_supported_audio_codec(CodecType::H264));
    assert!(!is_supported_audio_codec(CodecType::Unknown));
}

#[test]
fn test_h264_decoder_new() {
    let result = H264Decoder::new();
    assert!(result.is_err());
}

#[test]
fn test_h264_decoder_codec_type() {
    let decoder = H264Decoder::default();
    assert_eq!(decoder.codec_type(), CodecType::H264);
    assert_eq!(decoder.name(), "H264Decoder");
}

#[test]
fn h264_decoder_refuses_other_codecs() {
    let mut decoder = H264Decoder::default();
    let packet = MediaPacket::new(CodecType::H265, Bytes::from_static(b"x"));
    match decoder.decode(&packet) {
        Err(DecodeError::InvalidParameter(m)) => assert_eq!(m, "expected H264 codec, got H265"),
        _ => panic!("wrong result"),
    }
    let packet = MediaPacket::new(CodecType::H264, Bytes::from_static(b"x"));
    assert_eq!(
        decoder.decode(&packet).unwrap_err(),
        DecodeError::UnsupportedCodec(CodecType::H264)
    );
    assert!(H264Decoder::with_output_format(PixelFormat::RGB).is_err());
}

#[test]
fn test_mjpeg_decoder_new() {
    let decoder = MjpegDecoder::new();
    assert_eq!(decoder.codec_type(), CodecType::MJPEG);
    assert_eq!(decoder.name(), "MjpegDecoder");
    assert_eq!(decoder.output_format(), PixelFormat::RGBA);
}

#[test]
fn test_mjpeg_decoder_with_format() {
    let decoder = MjpegDecoder::with_output_format(PixelFormat::RGB);
    assert_eq!(decoder.output_format(), PixelFormat::RGB);
}

#[test]
fn test_mjpeg_decoder_set_format() {
    let mut decoder = MjpegDecoder::new();
    decoder.set_output_format(PixelFormat::BGR);
    assert_eq!(decoder.output_format(), PixelFormat::BGR);
}

#[test]
fn mjpeg_test_decode_invalid_data() {
    let mut decoder = MjpegDecoder::new();
    let packet = MediaPacket::new(CodecType::MJPEG, Bytes::from_static(b"invalid jpeg data"));
    let result = decoder.decode(&packet);
    assert!(result.is_err());
    match result {
        Err(DecodeError::DecodeFailed(m)) => assert!(m.starts_with("JPEG decode failed: ")),
        _ => panic!("wrong error"),
    }
}

#[test]
fn test_decode_wrong_codec() {
    let mut decoder = MjpegDecoder::new();
    let packet = MediaPacket::new(CodecType::H264, Bytes::from_static(b"test"));
    let result = decoder.decode(&packet);
    assert!(result.is_err());
    match result {
        Err(DecodeError::InvalidParameter(m)) => assert_eq!(m, "expected MJPEG codec, got H264"),
        _ => panic!("wrong error"),
    }
}

#[test]
fn test_flush() {
    let mut decoder = MjpegDecoder::new();
    let result = decoder.flush();
    assert!(result.is_ok());
    assert!(result.unwrap().is_empty());
}

#[test]
fn test_reset() {
    let mut decoder = MjpegDecoder::new();
    decoder.reset();
}

fn test_jpeg(width: u32, height: u32) -> Vec<u8> {
    let img = image::DynamicImage::new_rgb8(width, height);
    let mut jpeg_data = Vec::new();
    img.write_to(&mut std::io::Cursor::new(&mut jpeg_data), image::ImageFormat::Jpeg)
        .unwrap();
    jpeg_data
}

#[test]
fn test_decode_valid_jpeg() {
    let jpeg_data = test_jpeg(100, 100);
    let mut decoder = MjpegDecoder::new();
    let packet = MediaPacket::new(CodecType::MJPEG, Bytes::from(jpeg_data));
    let result = decoder.decode(&packet);
    assert!(result.is_ok());
    let frame = result.unwrap();
    assert!(frame.is_some());
    let frame = frame.unwrap();
    assert_eq!(frame.width, 100);
    assert_eq!(frame.height, 100);
    assert_eq!(frame.pixel_format, PixelFormat::RGBA);
}

#[test]
fn jpeg_dimensions_from_header() {
    assert_eq!(get_jpeg_dimensions(&test_jpeg(40, 24)).unwrap(), (40, 24));
    match get_jpeg_dimensions(b"not a jpeg") {
        Err(DecodeError::DecodeFailed(m)) => assert!(m.starts_with("failed to get JPEG dimensions: ")),
        other => panic!("unexpected {:?}", other),
    }
}

#[test]
fn mjpeg_decoder_formats_and_timestamps() {
    let jpeg_data = test_jpeg(8, 4);
    for (asked, got, bpp) in [
        (PixelFormat::RGB, PixelFormat::RGB, 3usize),
        (PixelFormat::BGR, PixelFormat::BGR, 3),
        (PixelFormat::BGRA, PixelFormat::BGRA, 4),
        (PixelFormat::GRAY8, PixelFormat::GRAY8, 1),
        (PixelFormat::NV12, PixelFormat::RGBA, 4),
    ] {
        let mut decoder = MjpegDecoder::with_output_format(asked);
        let packet = MediaPacket::new(CodecType::MJPEG, Bytes::from(jpeg_data.clone()))
            .with_timestamps(1000, 1500);
        let frame = decoder.decode(&packet).unwrap().unwrap();
        assert_eq!(frame.pixel_format, got);
        assert_eq!(frame.len(), 8 * 4 * bpp);
        assert_eq!(frame.pts, 1000);
        assert_eq!(frame.dts, 1500);
        assert_eq!(frame.duration, 500);
        assert!(frame.keyframe);
    }
}

#[test]
fn swap_red_blue_swaps_first_and_third() {
    assert_eq!(swap_red_blue(&[1, 2, 3, 4, 5, 6], 3), vec![3, 2, 1, 6, 5, 4]);
    assert_eq!(swap_red_blue(&[1, 2, 3, 4, 5, 6, 7, 8], 4), vec![3, 2, 1, 4, 7, 6, 5, 8]);
    assert_eq!(swap_red_blue(&[], 4), Vec::<u8>::new());
}

#[test]
fn test_decoder_info() {
    let decoder = DummyDecoder { codec_type: CodecType::H264 };
    let info = decoder.info();
    assert_eq!(info.name, "DummyDecoder");
    assert_eq!(info.codec_type, CodecType::H264);
}

#[test]
fn test_stats_decoder() {
    let dummy = DummyDecoder { codec_type: CodecType::H264 };
    let mut decoder = StatsDecoder::new(dummy);
    assert_eq!(decoder.stats().packets_in, 0);
    assert_eq!(decoder.stats().frames_out, 0);
    assert_eq!(decoder.name(), "DummyDecoder");
    assert_eq!(decoder.codec_type(), CodecType::H264);
    decoder.reset_stats();
    assert_eq!(decoder.stats().packets_in, 0);
}

#[test]
fn stats_decoder_counts() {
    let mut decoder = StatsDecoder::new(MjpegDecoder::new());
    let good = MediaPacket::new(CodecType::MJPEG, Bytes::from(test_jpeg(4, 4)));
    let bad = MediaPacket::new(CodecType::MJPEG, Bytes::from_static(b"nope"));
    assert!(decoder.decode(&good).is_ok());
    assert!(decoder.decode(&bad).is_err());
    assert!(decoder.decode(&good).is_ok());
    assert_eq!(decoder.stats().packets_in, 3);
    assert_eq!(decoder.stats().frames_out, 2);
    assert_eq!(decoder.stats().decode_errors, 1);
    decoder.stats_mut().frames_dropped = 7;
    assert_eq!(decoder.stats().frames_dropped, 7);
    decoder.reset();
    assert_eq!(decoder.stats().packets_in, 0);
    assert_eq!(decoder.inner().codec_type(), CodecType::MJPEG);
    let _: &DecoderStats = decoder.stats();
}

#[test]
fn test_create_mjpeg_decoder() {
    let result = create_decoder(CodecType::MJPEG);
    assert!(result.is_ok());
    let decoder = result.unwrap();
    assert_eq!(decoder.codec_type(), CodecType::MJPEG);
}

#[test]
fn test_create_unsupported_codec() {
    let result = create_decoder(CodecType::H265);
    assert!(result.is_err());
    assert!(create_decoder_with_format(CodecType::H264, PixelFormat::NV12).is_err());
}

#[test]
fn test_decoder_config() {
    let config = DecoderConfig::new(CodecType::MJPEG)
        .with_output_format(PixelFormat::RGB)
        .with_stats(true);
    assert_eq!(config.codec_type, CodecType::MJPEG);
    assert_eq!(config.output_format, PixelFormat::RGB);
    assert!(config.enable_stats);
    let decoder = config.create_decoder().unwrap();
    assert_eq!(decoder.name(), "MjpegDecoder");
    assert!(DecoderConfig::new(CodecType::H264).create_decoder().is_err());
}

#[test]
fn test_is_codec_supported() {
    assert!(is_codec_supported(CodecType::MJPEG));
    assert!(!is_codec_supported(CodecType::H264));
    assert!(!is_codec_supported(CodecType::H265));
}

#[test]
fn test_supported_codecs() {
    let codecs = supported_codecs();
    assert!(!codecs.is_empty());
    assert_eq!(codecs, vec![CodecType::MJPEG]);
}

#[test]
fn decode_error_messages() {
    assert_eq!(
        DecodeError::UnsupportedCodec(CodecType::G711U).to_string(),
        "unsupported codec: G711U"
    );
    assert_eq!(DecodeError::BufferOverflow.to_string(), "buffer overflow");
    assert_eq!(DecodeError::from("bad".to_string()), DecodeError::DecodeFailed("bad".to_string()));
    let e = DecodeError::from(RtpError::BufferTooShort { need: 12, got: 3 });
    assert_eq!(
        e,
        DecodeError::InternalError("RTP buffer too short: need 12 bytes, got 3".to_string())
    );
    assert_eq!(FfiErrorCode::DecodeError.code(), -3);
}

#[test]
fn test_media_packet() {
    let data = Bytes::from_static(b"test data");
    let packet = MediaPacket::new(CodecType::H264, data.clone())
        .with_timestamps(1000, 1000)
        .with_keyframe(true);
    assert_eq!(packet.media_type, MediaType::Video);
    assert_eq!(packet.codec_type, CodecType::H264);
    assert_eq!(packet.pts, 1000);
    assert_eq!(packet.keyframe, true);
    assert_eq!(packet.data, data);
}

#[test]
fn test_media_frame_rgb() {
    let width = 1920;
    let height = 1080;
    let data = Bytes::from(vec![0u8; (width * height * 3) as usize]);
    let frame = MediaFrame::new(PixelFormat::RGB, width, height, data);
    assert_eq!(frame.pixel_format, PixelFormat::RGB);
    assert_eq!(frame.width, width);
    assert_eq!(frame.height, height);
    assert_eq!(frame.plane_count, 1);
    assert_eq!(frame.stride[0], width * 3);
}

#[test]
fn test_media_frame_yuv420p() {
    let width = 1920;
    let height = 1080;
    let data = Bytes::from(vec![0u8; (width * height * 3 / 2) as usize]);
    let frame = MediaFrame::new(PixelFormat::YUV420P, width, height, data);
    assert_eq!(frame.pixel_format, PixelFormat::YUV420P);
    assert_eq!(frame.plane_count, 3);
    assert_eq!(frame.stride[0], width);
    assert_eq!(frame.stride[1], (width + 1) / 2);
    assert!(frame.plane_data(0).is_some());
    assert!(frame.plane_data(1).is_some());
    assert!(frame.plane_data(2).is_some());
    assert!(frame.plane_data(3).is_none());
}

#[test]
fn test_media_frame_nv12() {
    let width = 1920;
    let height = 1080;
    let data = Bytes::from(vec![0u8; (width * height * 3 / 2) as usize]);
    let frame = MediaFrame::new(PixelFormat::NV12, width, height, data);
    assert_eq!(frame.pixel_format, PixelFormat::NV12);
    assert_eq!(frame.plane_count, 2);
    assert_eq!(frame.stride[0], width);
    assert_eq!(frame.stride[1], width);
    assert!(frame.plane_data(0).is_some());
    assert!(frame.plane_data(1).is_some());
    assert!(frame.plane_data(2).is_none());
}

#[test]
fn media_frame_plane_sizes() {
    let frame = MediaFrame::new(PixelFormat::YUV420P, 5, 3, Bytes::from(vec![7u8; 27]));
    assert_eq!(frame.plane_offset, [0, 15, 21, 0]);
    assert_eq!(frame.stride, [5, 3, 3, 0]);
    assert_eq!(frame.plane_data(0).unwrap().len(), 15);
    assert_eq!(frame.plane_data(1).unwrap().len(), 6);
    assert_eq!(frame.plane_data(2).unwrap().len(), 6);
    let frame = MediaFrame::new(PixelFormat::YUV422P, 5, 2, Bytes::new());
    assert_eq!(frame.plane_offset, [0, 10, 16, 0]);
    let frame = MediaFrame::new(PixelFormat::YUV444P, 4, 4, Bytes::new());
    assert_eq!(frame.plane_offset, [0, 16, 32, 0]);
    let frame = MediaFrame::new(PixelFormat::GRAY16, 10, 1, Bytes::new());
    assert_eq!((frame.stride[0], frame.plane_count), (20, 1));
    let frame = MediaFrame::new(PixelFormat::MONO, 10, 1, Bytes::new());
    assert_eq!((frame.stride, frame.plane_count), ([0, 0, 0, 0], 0));
    assert!(frame.plane_data(0).is_none());
    let frame = MediaFrame::new(PixelFormat::YUV420P, -3, 2, Bytes::new());
    assert_eq!(frame.stride[1], -1);
}

#[test]
fn factories_give_decoders_of_the_requested_format() {
    let jpeg = test_jpeg(16, 8);
    let packet = MediaPacket::new(CodecType::MJPEG, Bytes::from(jpeg));
    let mut d = create_decoder(CodecType::MJPEG).unwrap();
    assert_eq!(d.codec_type(), CodecType::MJPEG);
    assert_eq!(d.decode(&packet).unwrap().unwrap().pixel_format, PixelFormat::RGBA);
    let mut d = create_decoder_with_format(CodecType::MJPEG, PixelFormat::RGB).unwrap();
    assert_eq!(d.decode(&packet).unwrap().unwrap().pixel_format, PixelFormat::RGB);
    let config = DecoderConfig::new(CodecType::MJPEG)
        .with_output_format(PixelFormat::GRAY8)
        .with_stats(true);
    let mut d = config.create_decoder().unwrap();
    let frame = d.decode(&packet).unwrap().unwrap();
    assert_eq!(frame.pixel_format, PixelFormat::GRAY8);
    assert_eq!(frame.data.len(), 16 * 8);
}

#[test]
fn stats_decoder_decodes_as_the_wrapped_one() {
    let jpeg = test_jpeg(12, 4);
    let packet = MediaPacket::new(CodecType::MJPEG, Bytes::from(jpeg));
    let mut plain = MjpegDecoder::with_output_format(PixelFormat::RGB);
    let mut wrapped = StatsDecoder::new(MjpegDecoder::with_output_format(PixelFormat::RGB));
    for _ in 0..2 {
        let a = plain.decode(&packet).unwrap().unwrap();
        let b = wrapped.decode(&packet).unwrap().unwrap();
        assert_eq!(a.data, b.data);
        assert_eq!((a.width, a.height, a.pixel_format), (b.width, b.height, b.pixel_format));
    }
    assert_eq!(wrapped.inner().output_format(), PixelFormat::RGB);
    assert_eq!(wrapped.stats().packets_in, 2);
    assert_eq!(wrapped.stats().frames_out, 2);
}
