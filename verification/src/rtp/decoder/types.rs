//! Media, codec, pixel and sample formats.
use vstd::prelude::*;

verus! {

#[derive(Debug, Clone, Copy, PartialEq, Eq, Structural)]
pub enum MediaType {
    Video,
    Audio,
    Unknown,
}

pub open spec fn media_type_code(t: MediaType) -> u32 {
    match t {
        MediaType::Video => 0,
        MediaType::Audio => 1,
        MediaType::Unknown => 0xFF,
    }
}

/// The media type with number `v`: 0 is video, 1 audio, anything else
/// unknown.
pub open spec fn media_of_code(v: u32) -> MediaType {
    if v == 0 {
        MediaType::Video
    } else if v == 1 {
        MediaType::Audio
    } else {
        MediaType::Unknown
    }
}

impl MediaType {
    /// 0 is video, 1 audio, anything else unknown.
    pub fn from_u32(value: u32) -> (r: MediaType)
        ensures
            r == media_of_code(value),
    {
        match value {
            0 => MediaType::Video,
            1 => MediaType::Audio,
            _ => MediaType::Unknown,
        }
    }

    pub fn to_u32(&self) -> (r: u32)
        ensures
            r == media_type_code(*self),
    {
        match self {
            MediaType::Video => 0,
            MediaType::Audio => 1,
            MediaType::Unknown => 0xFF,
        }
    }
}

#[derive(Debug, Clone, Copy, PartialEq, Eq, Structural)]
pub enum CodecType {
    H264,
    H265,
    MJPEG,
    MPEG4,
    VP8,
    VP9,
    AV1,
    AAC,
    MP3,
    OPUS,
    G711A,
    G711U,
    Unknown,
}

/// The number of a codec; 0xFF for `Unknown`.
pub open spec fn codec_code(c: CodecType) -> u32 {
    match c {
        CodecType::H264 => 0,
        CodecType::H265 => 1,
        CodecType::MJPEG => 2,
        CodecType::MPEG4 => 3,
        CodecType::VP8 => 4,
        CodecType::VP9 => 5,
        CodecType::AV1 => 6,
        CodecType::AAC => 7,
        CodecType::MP3 => 8,
        CodecType::OPUS => 9,
        CodecType::G711A => 10,
        CodecType::G711U => 11,
        CodecType::Unknown => 0xFF,
    }
}

/// The codec with number `v`; `Unknown` above 11.
pub open spec fn codec_of_code(v: u32) -> CodecType {
    if v == 0 {
        CodecType::H264
    } else if v == 1 {
        CodecType::H265
    } else if v == 2 {
        CodecType::MJPEG
    } else if v == 3 {
        CodecType::MPEG4
    } else if v == 4 {
        CodecType::VP8
    } else if v == 5 {
        CodecType::VP9
    } else if v == 6 {
        CodecType::AV1
    } else if v == 7 {
        CodecType::AAC
    } else if v == 8 {
        CodecType::MP3
    } else if v == 9 {
        CodecType::OPUS
    } else if v == 10 {
        CodecType::G711A
    } else if v == 11 {
        CodecType::G711U
    } else {
        CodecType::Unknown
    }
}

pub open spec fn is_video_codec(c: CodecType) -> bool {
    c == CodecType::H264 || c == CodecType::H265 || c == CodecType::MJPEG || c == CodecType::MPEG4
        || c == CodecType::VP8 || c == CodecType::VP9 || c == CodecType::AV1
}

pub open spec fn is_audio_codec(c: CodecType) -> bool {
    c == CodecType::AAC || c == CodecType::MP3 || c == CodecType::OPUS || c == CodecType::G711A || c
        == CodecType::G711U
}

impl CodecType {
    pub fn from_u32(value: u32) -> (r: CodecType)
        ensures
            r == codec_of_code(value),
    {
        match value {
            0 => CodecType::H264,
            1 => CodecType::H265,
            2 => CodecType::MJPEG,
            3 => CodecType::MPEG4,
            4 => CodecType::VP8,
            5 => CodecType::VP9,
            6 => CodecType::AV1,
            7 => CodecType::AAC,
            8 => CodecType::MP3,
            9 => CodecType::OPUS,
            10 => CodecType::G711A,
            11 => CodecType::G711U,
            _ => CodecType::Unknown,
        }
    }

    pub fn to_u32(&self) -> (r: u32)
        ensures
            r == codec_code(*self),
    {
        match self {
            CodecType::H264 => 0,
            CodecType::H265 => 1,
            CodecType::MJPEG => 2,
            CodecType::MPEG4 => 3,
            CodecType::VP8 => 4,
            CodecType::VP9 => 5,
            CodecType::AV1 => 6,
            CodecType::AAC => 7,
            CodecType::MP3 => 8,
            CodecType::OPUS => 9,
            CodecType::G711A => 10,
            CodecType::G711U => 11,
            CodecType::Unknown => 0xFF,
        }
    }

    pub fn is_video(&self) -> (r: bool)
        ensures
            r == is_video_codec(*self),
    {
        match self {
            CodecType::H264 | CodecType::H265 | CodecType::MJPEG | CodecType::MPEG4 | CodecType::VP8
            | CodecType::VP9 | CodecType::AV1 => true,
            _ => false,
        }
    }

    pub fn is_audio(&self) -> (r: bool)
        ensures
            r == is_audio_codec(*self),
    {
        match self {
            CodecType::AAC | CodecType::MP3 | CodecType::OPUS | CodecType::G711A | CodecType::G711U => true,
            _ => false,
        }
    }
}

#[derive(Debug, Clone, Copy, PartialEq, Eq, Structural)]
pub enum PixelFormat {
    Unknown,
    RGBA,
    RGB,
    BGRA,
    BGR,
    YUV420P,
    NV12,
    NV21,
    YUV422P,
    YUY2,
    UYVY,
    YUV444P,
    GRAY8,
    GRAY16,
    MONO,
}

pub open spec fn pixel_code(p: PixelFormat) -> u32 {
    match p {
        PixelFormat::Unknown => 0,
        PixelFormat::RGBA => 1,
        PixelFormat::RGB => 2,
        PixelFormat::BGRA => 3,
        PixelFormat::BGR => 4,
        PixelFormat::YUV420P => 5,
        PixelFormat::NV12 => 6,
        PixelFormat::NV21 => 7,
        PixelFormat::YUV422P => 8,
        PixelFormat::YUY2 => 9,
        PixelFormat::UYVY => 10,
        PixelFormat::YUV444P => 11,
        PixelFormat::GRAY8 => 12,
        PixelFormat::GRAY16 => 13,
        PixelFormat::MONO => 14,
    }
}

pub open spec fn pixel_of_code(v: u32) -> PixelFormat {
    if v == 1 {
        PixelFormat::RGBA
    } else if v == 2 {
        PixelFormat::RGB
    } else if v == 3 {
        PixelFormat::BGRA
    } else if v == 4 {
        PixelFormat::BGR
    } else if v == 5 {
        PixelFormat::YUV420P
    } else if v == 6 {
        PixelFormat::NV12
    } else if v == 7 {
        PixelFormat::NV21
    } else if v == 8 {
        PixelFormat::YUV422P
    } else if v == 9 {
        PixelFormat::YUY2
    } else if v == 10 {
        PixelFormat::UYVY
    } else if v == 11 {
        PixelFormat::YUV444P
    } else if v == 12 {
        PixelFormat::GRAY8
    } else if v == 13 {
        PixelFormat::GRAY16
    } else if v == 14 {
        PixelFormat::MONO
    } else {
        PixelFormat::Unknown
    }
}

pub open spec fn is_rgb_format(p: PixelFormat) -> bool {
    p == PixelFormat::RGBA || p == PixelFormat::RGB || p == PixelFormat::BGRA || p == PixelFormat::BGR
}

pub open spec fn is_yuv_format(p: PixelFormat) -> bool {
    p == PixelFormat::YUV420P || p == PixelFormat::NV12 || p == PixelFormat::NV21 || p
        == PixelFormat::YUV422P || p == PixelFormat::YUY2 || p == PixelFormat::UYVY || p
        == PixelFormat::YUV444P
}

pub open spec fn is_gray_format(p: PixelFormat) -> bool {
    p == PixelFormat::GRAY8 || p == PixelFormat::GRAY16 || p == PixelFormat::MONO
}

/// Bytes per pixel of the packed single-plane formats (grey included); 0
/// for planar and unknown ones.
pub open spec fn pixel_bytes(p: PixelFormat) -> u32 {
    match p {
        PixelFormat::RGBA | PixelFormat::BGRA => 4,
        PixelFormat::RGB | PixelFormat::BGR => 3,
        PixelFormat::YUY2 | PixelFormat::UYVY | PixelFormat::GRAY16 => 2,
        PixelFormat::GRAY8 => 1,
        _ => 0,
    }
}

/// Bytes of one frame of `w` by `h` pixels, with 4:2:0 chroma at half the
/// luma size; 0 for formats without a defined size.
pub open spec fn pixel_frame_size(p: PixelFormat, w: int, h: int) -> int {
    match p {
        PixelFormat::RGBA | PixelFormat::BGRA => w * h * 4,
        PixelFormat::RGB | PixelFormat::BGR => w * h * 3,
        PixelFormat::YUV420P | PixelFormat::NV12 | PixelFormat::NV21 => w * h * 3 / 2,
        PixelFormat::YUV422P => w * h * 2,
        PixelFormat::YUY2 | PixelFormat::UYVY => w * h * 2,
        PixelFormat::YUV444P => w * h * 3,
        PixelFormat::GRAY8 => w * h,
        PixelFormat::GRAY16 => w * h * 2,
        _ => 0,
    }
}

impl PixelFormat {
    pub fn from_u32(value: u32) -> (r: PixelFormat)
        ensures
            r == pixel_of_code(value),
    {
        match value {
            0 => PixelFormat::Unknown,
            1 => PixelFormat::RGBA,
            2 => PixelFormat::RGB,
            3 => PixelFormat::BGRA,
            4 => PixelFormat::BGR,
            5 => PixelFormat::YUV420P,
            6 => PixelFormat::NV12,
            7 => PixelFormat::NV21,
            8 => PixelFormat::YUV422P,
            9 => PixelFormat::YUY2,
            10 => PixelFormat::UYVY,
            11 => PixelFormat::YUV444P,
            12 => PixelFormat::GRAY8,
            13 => PixelFormat::GRAY16,
            14 => PixelFormat::MONO,
            _ => PixelFormat::Unknown,
        }
    }

    pub fn to_u32(&self) -> (r: u32)
        ensures
            r == pixel_code(*self),
    {
        match self {
            PixelFormat::Unknown => 0,
            PixelFormat::RGBA => 1,
            PixelFormat::RGB => 2,
            PixelFormat::BGRA => 3,
            PixelFormat::BGR => 4,
            PixelFormat::YUV420P => 5,
            PixelFormat::NV12 => 6,
            PixelFormat::NV21 => 7,
            PixelFormat::YUV422P => 8,
            PixelFormat::YUY2 => 9,
            PixelFormat::UYVY => 10,
            PixelFormat::YUV444P => 11,
            PixelFormat::GRAY8 => 12,
            PixelFormat::GRAY16 => 13,
            PixelFormat::MONO => 14,
        }
    }

    pub fn is_rgb(&self) -> (r: bool)
        ensures
            r == is_rgb_format(*self),
    {
        match self {
            PixelFormat::RGBA | PixelFormat::RGB | PixelFormat::BGRA | PixelFormat::BGR => true,
            _ => false,
        }
    }

    pub fn is_yuv(&self) -> (r: bool)
        ensures
            r == is_yuv_format(*self),
    {
        match self {
            PixelFormat::YUV420P | PixelFormat::NV12 | PixelFormat::NV21 | PixelFormat::YUV422P
            | PixelFormat::YUY2 | PixelFormat::UYVY | PixelFormat::YUV444P => true,
            _ => false,
        }
    }

    pub fn is_gray(&self) -> (r: bool)
        ensures
            r == is_gray_format(*self),
    {
        match self {
            PixelFormat::GRAY8 | PixelFormat::GRAY16 | PixelFormat::MONO => true,
            _ => false,
        }
    }

    pub fn bytes_per_pixel(&self) -> (r: u32)
        ensures
            r == pixel_bytes(*self),
    {
        match self {
            PixelFormat::RGBA | PixelFormat::BGRA => 4,
            PixelFormat::RGB | PixelFormat::BGR => 3,
            PixelFormat::YUY2 | PixelFormat::UYVY | PixelFormat::GRAY16 => 2,
            PixelFormat::GRAY8 => 1,
            _ => 0,
        }
    }

    /// Bytes of one frame; the product of the dimensions and the per-pixel
    /// factor must fit in a `u32`.
    pub fn frame_size(&self, width: u32, height: u32) -> (r: u32)
        requires
            frame_factor(*self) == 0 || width * height * frame_factor(*self) <= u32::MAX,
        ensures
            r == pixel_frame_size(*self, width as int, height as int),
    {
        let k = frame_factor_of(*self);
        if k == 0 {
            return 0;
        }
        proof {
            assert(width * height * k == (width * height) * k) by (nonlinear_arith);
            assert(k >= 1 ==> width * height <= (width * height) * k) by (nonlinear_arith);
        }
        let wh: u32 = width * height;
        match self {
            PixelFormat::RGBA | PixelFormat::BGRA => wh * 4,
            PixelFormat::RGB | PixelFormat::BGR => wh * 3,
            PixelFormat::YUV420P | PixelFormat::NV12 | PixelFormat::NV21 => wh * 3 / 2,
            PixelFormat::YUV422P => wh * 2,
            PixelFormat::YUY2 | PixelFormat::UYVY => wh * 2,
            PixelFormat::YUV444P => wh * 3,
            PixelFormat::GRAY8 => wh,
            PixelFormat::GRAY16 => wh * 2,
            _ => 0,
        }
    }
}

/// The factor by which a frame size multiplies the pixel count before any
/// division; 0 for formats without a defined size.
pub open spec fn frame_factor(p: PixelFormat) -> u32 {
    match p {
        PixelFormat::RGBA | PixelFormat::BGRA => 4,
        PixelFormat::RGB | PixelFormat::BGR | PixelFormat::YUV420P | PixelFormat::NV12
        | PixelFormat::NV21 | PixelFormat::YUV444P => 3,
        PixelFormat::YUV422P | PixelFormat::YUY2 | PixelFormat::UYVY | PixelFormat::GRAY16 => 2,
        PixelFormat::GRAY8 => 1,
        _ => 0,
    }
}

fn frame_factor_of(p: PixelFormat) -> (r: u32)
    ensures
        r == frame_factor(p),
{
    match p {
        PixelFormat::RGBA | PixelFormat::BGRA => 4,
        PixelFormat::RGB | PixelFormat::BGR | PixelFormat::YUV420P | PixelFormat::NV12
        | PixelFormat::NV21 | PixelFormat::YUV444P => 3,
        PixelFormat::YUV422P | PixelFormat::YUY2 | PixelFormat::UYVY | PixelFormat::GRAY16 => 2,
        PixelFormat::GRAY8 => 1,
        _ => 0,
    }
}

/// Handle of a decoder backend.
pub type BackendHandle = usize;

#[derive(Debug, Clone, Copy, PartialEq, Eq, Structural)]
pub enum SampleFormat {
    Unknown,
    U8,
    S16,
    S32,
    F32,
    F64,
    U8P,
    S16P,
    S32P,
    F32P,
    F64P,
}

pub open spec fn sample_code(s: SampleFormat) -> u32 {
    match s {
        SampleFormat::Unknown => 0,
        SampleFormat::U8 => 1,
        SampleFormat::S16 => 2,
        SampleFormat::S32 => 3,
        SampleFormat::F32 => 4,
        SampleFormat::F64 => 5,
        SampleFormat::U8P => 6,
        SampleFormat::S16P => 7,
        SampleFormat::S32P => 8,
        SampleFormat::F32P => 9,
        SampleFormat::F64P => 10,
    }
}

pub open spec fn sample_of_code(v: u32) -> SampleFormat {
    if v == 1 {
        SampleFormat::U8
    } else if v == 2 {
        SampleFormat::S16
    } else if v == 3 {
        SampleFormat::S32
    } else if v == 4 {
        SampleFormat::F32
    } else if v == 5 {
        SampleFormat::F64
    } else if v == 6 {
        SampleFormat::U8P
    } else if v == 7 {
        SampleFormat::S16P
    } else if v == 8 {
        SampleFormat::S32P
    } else if v == 9 {
        SampleFormat::F32P
    } else if v == 10 {
        SampleFormat::F64P
    } else {
        SampleFormat::Unknown
    }
}

pub open spec fn is_planar_format(s: SampleFormat) -> bool {
    s == SampleFormat::U8P || s == SampleFormat::S16P || s == SampleFormat::S32P || s
        == SampleFormat::F32P || s == SampleFormat::F64P
}

pub open spec fn sample_bytes(s: SampleFormat) -> u32 {
    match s {
        SampleFormat::U8 | SampleFormat::U8P => 1,
        SampleFormat::S16 | SampleFormat::S16P => 2,
        SampleFormat::S32 | SampleFormat::S32P | SampleFormat::F32 | SampleFormat::F32P => 4,
        SampleFormat::F64 | SampleFormat::F64P => 8,
        SampleFormat::Unknown => 0,
    }
}

pub open spec fn planar_of(s: SampleFormat) -> Option<SampleFormat> {
    match s {
        SampleFormat::U8 => Some(SampleFormat::U8P),
        SampleFormat::S16 => Some(SampleFormat::S16P),
        SampleFormat::S32 => Some(SampleFormat::S32P),
        SampleFormat::F32 => Some(SampleFormat::F32P),
        SampleFormat::F64 => Some(SampleFormat::F64P),
        _ => None,
    }
}

pub open spec fn packed_of(s: SampleFormat) -> Option<SampleFormat> {
    match s {
        SampleFormat::U8P => Some(SampleFormat::U8),
        SampleFormat::S16P => Some(SampleFormat::S16),
        SampleFormat::S32P => Some(SampleFormat::S32),
        SampleFormat::F32P => Some(SampleFormat::F32),
        SampleFormat::F64P => Some(SampleFormat::F64),
        _ => None,
    }
}

impl SampleFormat {
    pub fn from_u32(value: u32) -> (r: SampleFormat)
        ensures
            r == sample_of_code(value),
    {
        match value {
            0 => SampleFormat::Unknown,
            1 => SampleFormat::U8,
            2 => SampleFormat::S16,
            3 => SampleFormat::S32,
            4 => SampleFormat::F32,
            5 => SampleFormat::F64,
            6 => SampleFormat::U8P,
            7 => SampleFormat::S16P,
            8 => SampleFormat::S32P,
            9 => SampleFormat::F32P,
            10 => SampleFormat::F64P,
            _ => SampleFormat::Unknown,
        }
    }

    pub fn to_u32(&self) -> (r: u32)
        ensures
            r == sample_code(*self),
    {
        match self {
            SampleFormat::Unknown => 0,
            SampleFormat::U8 => 1,
            SampleFormat::S16 => 2,
            SampleFormat::S32 => 3,
            SampleFormat::F32 => 4,
            SampleFormat::F64 => 5,
            SampleFormat::U8P => 6,
            SampleFormat::S16P => 7,
            SampleFormat::S32P => 8,
            SampleFormat::F32P => 9,
            SampleFormat::F64P => 10,
        }
    }

    pub fn is_planar(&self) -> (r: bool)
        ensures
            r == is_planar_format(*self),
    {
        match self {
            SampleFormat::U8P | SampleFormat::S16P | SampleFormat::S32P | SampleFormat::F32P
            | SampleFormat::F64P => true,
            _ => false,
        }
    }

    pub fn is_packed(&self) -> (r: bool)
        ensures
            r == !is_planar_format(*self),
    {
        !self.is_planar()
    }

    pub fn bytes_per_sample(&self) -> (r: u32)
        ensures
            r == sample_bytes(*self),
    {
        match self {
            SampleFormat::U8 | SampleFormat::U8P => 1,
            SampleFormat::S16 | SampleFormat::S16P => 2,
            SampleFormat::S32 | SampleFormat::S32P | SampleFormat::F32 | SampleFormat::F32P => 4,
            SampleFormat::F64 | SampleFormat::F64P => 8,
            SampleFormat::Unknown => 0,
        }
    }

    pub fn to_planar(&self) -> (r: Option<SampleFormat>)
        ensures
            r == planar_of(*self),
    {
        match self {
            SampleFormat::U8 => Some(SampleFormat::U8P),
            SampleFormat::S16 => Some(SampleFormat::S16P),
            SampleFormat::S32 => Some(SampleFormat::S32P),
            SampleFormat::F32 => Some(SampleFormat::F32P),
            SampleFormat::F64 => Some(SampleFormat::F64P),
            _ => None,
        }
    }

    pub fn to_packed(&self) -> (r: Option<SampleFormat>)
        ensures
            r == packed_of(*self),
    {
        match self {
            SampleFormat::U8P => Some(SampleFormat::U8),
            SampleFormat::S16P => Some(SampleFormat::S16),
            SampleFormat::S32P => Some(SampleFormat::S32),
            SampleFormat::F32P => Some(SampleFormat::F32),
            SampleFormat::F64P => Some(SampleFormat::F64),
            _ => None,
        }
    }

    /// Bytes of `nb_samples` samples on each of `channels` channels, planar
    /// and packed alike.
    pub fn frame_size(&self, nb_samples: u32, channels: u32) -> (r: u32)
        requires
            sample_bytes(*self) * nb_samples * channels <= u32::MAX,
        ensures
            r == sample_bytes(*self) * nb_samples * channels,
    {
        let b = self.bytes_per_sample();
        proof {
            assert(b * nb_samples * channels == (b * nb_samples) * channels) by (nonlinear_arith);
            assert(b * nb_samples <= b * nb_samples * channels || channels == 0) by (nonlinear_arith);
        }
        if channels == 0 {
            return 0;
        }
        b * nb_samples * channels
    }
}

/// Reading a codec's number back gives the codec, for every known codec.
pub proof fn lemma_codec_code_roundtrip(c: CodecType)
    requires
        c != CodecType::Unknown,
    ensures
        codec_of_code(codec_code(c)) == c,
{
}

/// Reading a pixel format's number back gives the format.
pub proof fn lemma_pixel_code_roundtrip(p: PixelFormat)
    ensures
        pixel_of_code(pixel_code(p)) == p,
{
}

/// Reading a sample format's number back gives the format.
pub proof fn lemma_sample_code_roundtrip(s: SampleFormat)
    ensures
        sample_of_code(sample_code(s)) == s,
{
}

/// Reading a media type's number back gives the type.
pub proof fn lemma_media_type_code_roundtrip(t: MediaType)
    ensures
        (if media_type_code(t) == 0 {
            MediaType::Video
        } else if media_type_code(t) == 1 {
            MediaType::Audio
        } else {
            MediaType::Unknown
        }) == t,
{
}

/// Going planar and back to packed is the identity, and the other way round;
/// neither changes the sample size.
pub proof fn lemma_planar_packed_inverse(s: SampleFormat)
    ensures
        planar_of(s) matches Some(p) ==> packed_of(p) == Some(s) && sample_bytes(p) == sample_bytes(s),
        packed_of(s) matches Some(p) ==> planar_of(p) == Some(s) && sample_bytes(p) == sample_bytes(s),
        planar_of(s) is Some <==> !is_planar_format(s) && s != SampleFormat::Unknown,
        packed_of(s) is Some <==> is_planar_format(s),
{
}

} // verus!
