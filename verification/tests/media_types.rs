use cam_toolkit::rtp::decoder::types::{CodecType, MediaType, PixelFormat, SampleFormat};

#[test]
fn test_media_type_conversion() {
    assert_eq!(MediaType::from_u32(0), MediaType::Video);
    assert_eq!(MediaType::from_u32(1), MediaType::Audio);
    assert_eq!(MediaType::from_u32(99), MediaType::Unknown);
    assert_eq!(MediaType::Video.to_u32(), 0);
    assert_eq!(MediaType::Audio.to_u32(), 1);
}

#[test]
fn test_codec_type() {
    assert_eq!(CodecType::from_u32(0), CodecType::H264);
    assert_eq!(CodecType::from_u32(2), CodecType::MJPEG);
    assert_eq!(CodecType::H264.to_u32(), 0);
    assert!(CodecType::H264.is_video());
    assert!(CodecType::AAC.is_audio());
}

#[test]
fn test_pixel_format() {
    assert_eq!(PixelFormat::from_u32(1), PixelFormat::RGBA);
    assert_eq!(PixelFormat::RGBA.to_u32(), 1);
    assert!(PixelFormat::RGBA.is_rgb());
    assert!(PixelFormat::YUV420P.is_yuv());
    assert!(PixelFormat::GRAY8.is_gray());
    assert_eq!(PixelFormat::RGBA.bytes_per_pixel(), 4);
    assert_eq!(PixelFormat::RGB.bytes_per_pixel(), 3);
    assert_eq!(PixelFormat::YUV420P.bytes_per_pixel(), 0);
    assert_eq!(PixelFormat::GRAY8.bytes_per_pixel(), 1);
    assert_eq!(PixelFormat::GRAY16.bytes_per_pixel(), 2);
    assert_eq!(PixelFormat::RGBA.frame_size(1920, 1080), 1920 * 1080 * 4);
    assert_eq!(PixelFormat::YUV420P.frame_size(1920, 1080), 1920 * 1080 * 3 / 2);
}

#[test]
fn test_sample_format_conversion() {
    assert_eq!(SampleFormat::from_u32(0), SampleFormat::Unknown);
    assert_eq!(SampleFormat::from_u32(1), SampleFormat::U8);
    assert_eq!(SampleFormat::from_u32(2), SampleFormat::S16);
    assert_eq!(SampleFormat::from_u32(6), SampleFormat::U8P);
    assert_eq!(SampleFormat::from_u32(99), SampleFormat::Unknown);
    assert_eq!(SampleFormat::Unknown.to_u32(), 0);
    assert_eq!(SampleFormat::U8.to_u32(), 1);
    assert_eq!(SampleFormat::S16.to_u32(), 2);
    assert_eq!(SampleFormat::F32P.to_u32(), 9);
}

#[test]
fn test_sample_format_planar() {
    assert!(!SampleFormat::U8.is_planar());
    assert!(!SampleFormat::S16.is_planar());
    assert!(!SampleFormat::F32.is_planar());
    assert!(SampleFormat::U8P.is_planar());
    assert!(SampleFormat::S16P.is_planar());
    assert!(SampleFormat::F32P.is_planar());
    assert!(SampleFormat::F64P.is_planar());
    assert!(SampleFormat::U8.is_packed());
    assert!(!SampleFormat::U8P.is_packed());
}

#[test]
fn test_sample_format_bytes_per_sample() {
    assert_eq!(SampleFormat::U8.bytes_per_sample(), 1);
    assert_eq!(SampleFormat::S16.bytes_per_sample(), 2);
    assert_eq!(SampleFormat::S32.bytes_per_sample(), 4);
    assert_eq!(SampleFormat::F32.bytes_per_sample(), 4);
    assert_eq!(SampleFormat::F64.bytes_per_sample(), 8);
    assert_eq!(SampleFormat::U8P.bytes_per_sample(), 1);
    assert_eq!(SampleFormat::S16P.bytes_per_sample(), 2);
    assert_eq!(SampleFormat::F32P.bytes_per_sample(), 4);
    assert_eq!(SampleFormat::F64P.bytes_per_sample(), 8);
}

#[test]
fn test_sample_format_conversion_planar_packed() {
    assert_eq!(SampleFormat::U8.to_planar(), Some(SampleFormat::U8P));
    assert_eq!(SampleFormat::S16.to_planar(), Some(SampleFormat::S16P));
    assert_eq!(SampleFormat::F32.to_planar(), Some(SampleFormat::F32P));
    assert_eq!(SampleFormat::U8P.to_packed(), Some(SampleFormat::U8));
    assert_eq!(SampleFormat::S16P.to_packed(), Some(SampleFormat::S16));
    assert_eq!(SampleFormat::F32P.to_packed(), Some(SampleFormat::F32));
    assert_eq!(SampleFormat::Unknown.to_planar(), None);
    assert_eq!(SampleFormat::Unknown.to_packed(), None);
}

#[test]
fn test_sample_format_frame_size() {
    assert_eq!(SampleFormat::S16.frame_size(1024, 2), 4096);
    assert_eq!(SampleFormat::S16P.frame_size(1024, 2), 4096);
    assert_eq!(SampleFormat::F32.frame_size(512, 1), 2048);
}

#[test]
fn format_round_trips_and_sizes() {
    for v in 0..12u32 {
        assert_eq!(CodecType::from_u32(v).to_u32(), v);
    }
    assert_eq!(CodecType::from_u32(12), CodecType::Unknown);
    assert_eq!(CodecType::Unknown.to_u32(), 0xFF);
    for v in 0..15u32 {
        assert_eq!(PixelFormat::from_u32(v).to_u32(), v);
    }
    for v in 0..11u32 {
        assert_eq!(SampleFormat::from_u32(v).to_u32(), v);
    }
    assert_eq!(PixelFormat::GRAY8.frame_size(4, 2), 8);
    assert_eq!(PixelFormat::YUV422P.frame_size(4, 2), 16);
    assert_eq!(PixelFormat::MONO.frame_size(4, 2), 0);
    assert_eq!(SampleFormat::F64P.to_packed().unwrap().to_planar(), Some(SampleFormat::F64P));
    assert_eq!(SampleFormat::S32.frame_size(10, 0), 0);
}
