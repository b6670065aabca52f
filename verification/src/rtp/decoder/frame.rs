//! Encoded packets that go into a decoder and decoded frames that come out.
use vstd::prelude::*;
use vstd::slice::slice_subrange;
use vstd::wrapping::i32_specs;
use crate::rtp::decoder::types::{
    BackendHandle, CodecType, MediaType, PixelFormat, SampleFormat, is_audio_codec, is_planar_format,
    is_video_codec, sample_bytes,
};
use crate::rtp::h264::H264AccessUnit;
use crate::rtp::h265::H265AccessUnit;
use crate::rtp::mjpeg::JpegFrame;
use crate::shared_bytes::{bytes_as_slice, bytes_len, bytes_view};

verus! {

/// An encoded packet, the input of a decoder.
#[derive(Debug, Clone)]
pub struct MediaPacket {
    pub media_type: MediaType,
    pub codec_type: CodecType,
    /// Presentation time stamp, in microseconds.
    pub pts: i64,
    /// Decoding time stamp, in microseconds.
    pub dts: i64,
    pub keyframe: bool,
    pub data: bytes::Bytes,
    pub backend: Option<BackendHandle>,
}

/// The media type that a codec carries.
pub open spec fn media_type_of_codec(c: CodecType) -> MediaType {
    if is_video_codec(c) {
        MediaType::Video
    } else if is_audio_codec(c) {
        MediaType::Audio
    } else {
        MediaType::Unknown
    }
}

impl MediaPacket {
    /// A packet of `codec_type` holding `data`, with zero time stamps, not a
    /// key frame and no backend.
    pub fn new(codec_type: CodecType, data: bytes::Bytes) -> (r: MediaPacket)
        ensures
            r == (MediaPacket {
                media_type: media_type_of_codec(codec_type),
                codec_type: codec_type,
                pts: 0,
                dts: 0,
                keyframe: false,
                data: data,
                backend: None,
            }),
    {
        let media_type = if codec_type.is_video() {
            MediaType::Video
        } else if codec_type.is_audio() {
            MediaType::Audio
        } else {
            MediaType::Unknown
        };
        MediaPacket {
            media_type,
            codec_type,
            pts: 0,
            dts: 0,
            keyframe: false,
            data,
            backend: None,
        }
    }

    pub fn with_timestamps(self, pts: i64, dts: i64) -> (r: MediaPacket)
        ensures
            r == (MediaPacket { pts: pts, dts: dts, ..self }),
    {
        let mut s = self;
        s.pts = pts;
        s.dts = dts;
        s
    }

    pub fn with_keyframe(self, keyframe: bool) -> (r: MediaPacket)
        ensures
            r == (MediaPacket { keyframe: keyframe, ..self }),
    {
        let mut s = self;
        s.keyframe = keyframe;
        s
    }

    pub fn with_backend(self, backend: BackendHandle) -> (r: MediaPacket)
        ensures
            r == (MediaPacket { backend: Some(backend), ..self }),
    {
        let mut s = self;
        s.backend = Some(backend);
        s
    }

    /// The encoded bytes.
    pub fn as_slice(&self) -> (r: &[u8])
        ensures
            r@ == bytes_view(self.data),
    {
        bytes_as_slice(&self.data)
    }

    pub fn len(&self) -> (r: usize)
        ensures
            r == bytes_view(self.data).len(),
    {
        bytes_len(&self.data)
    }

    pub fn is_empty(&self) -> (r: bool)
        ensures
            r == (bytes_view(self.data).len() == 0),
    {
        bytes_len(&self.data) == 0
    }
}

/// A decoded frame, the output of a decoder.
#[derive(Debug, Clone)]
pub struct MediaFrame {
    pub media_type: MediaType,
    pub pixel_format: PixelFormat,
    pub width: i32,
    pub height: i32,
    /// Row stride of each plane in bytes: Y/R, U/G, V/B, alpha.
    pub stride: [i32; 4],
    /// Byte offset of each plane in `data`.
    pub plane_offset: [i32; 4],
    /// 1 for packed formats, 2 for semi-planar, 3 for planar.
    pub plane_count: i32,
    pub pts: i64,
    pub dts: i64,
    /// Frame duration in microseconds.
    pub duration: i64,
    pub keyframe: bool,
    pub data: bytes::Bytes,
    pub backend: Option<BackendHandle>,
    /// Sample format of an audio frame (`Unknown` for video).
    pub sample_format: SampleFormat,
    /// Samples per second of an audio frame (0 for video).
    pub sample_rate: i32,
    /// Channel count of an audio frame (0 for video).
    pub channels: i32,
    /// Channel layout mask of an audio frame (0 where none is given).
    pub channel_layout: u64,
    /// Samples per channel in an audio frame (0 for video).
    pub nb_samples: i32,
    /// Bytes of one sample (0 for video).
    pub bytes_per_sample: i32,
    /// Whether each channel has a plane of its own.
    pub planar: bool,
}

/// `a * b` in 32-bit two's complement, as an optimised build computes it.
pub open spec fn mul32(a: i32, b: i32) -> i32 {
    i32_specs::wrapping_mul(a, b)
}

/// `a + b` in 32-bit two's complement.
pub open spec fn add32(a: i32, b: i32) -> i32 {
    i32_specs::wrapping_add(a, b)
}

/// Integer division by two, rounding toward zero.
pub open spec fn half_toward_zero(x: int) -> int {
    if x >= 0 {
        x / 2
    } else {
        -((-x) / 2)
    }
}

/// Half of `w`, rounded up for non-negative `w`: the chroma width of 4:2:x
/// formats.
pub open spec fn chroma_len(w: i32) -> i32 {
    half_toward_zero(add32(w, 1) as int) as i32
}

/// Strides, plane offsets and plane count of a frame of the format, as the
/// 32-bit computation gives them; zeros for formats without a layout.
pub open spec fn plane_layout(p: PixelFormat, w: i32, h: i32) -> (Seq<i32>, Seq<i32>, i32) {
    let y_size = mul32(w, h);
    let uw = chroma_len(w);
    match p {
        PixelFormat::RGBA | PixelFormat::BGRA => (seq![mul32(w, 4), 0, 0, 0], seq![0i32, 0, 0, 0], 1),
        PixelFormat::RGB | PixelFormat::BGR => (seq![mul32(w, 3), 0, 0, 0], seq![0i32, 0, 0, 0], 1),
        PixelFormat::YUV420P => (
            seq![w, uw, uw, 0],
            seq![0, y_size, add32(y_size, mul32(uw, chroma_len(h))), 0],
            3,
        ),
        PixelFormat::NV12 | PixelFormat::NV21 => (seq![w, w, 0, 0], seq![0, y_size, 0, 0], 2),
        PixelFormat::YUV422P => (
            seq![w, uw, uw, 0],
            seq![0, y_size, add32(y_size, mul32(uw, h)), 0],
            3,
        ),
        PixelFormat::YUY2 | PixelFormat::UYVY => (seq![mul32(w, 2), 0, 0, 0], seq![0i32, 0, 0, 0], 1),
        PixelFormat::YUV444P => (seq![w, w, w, 0], seq![0, y_size, mul32(y_size, 2), 0], 3),
        PixelFormat::GRAY8 => (seq![w, 0, 0, 0], seq![0i32, 0, 0, 0], 1),
        PixelFormat::GRAY16 => (seq![mul32(w, 2), 0, 0, 0], seq![0i32, 0, 0, 0], 1),
        _ => (seq![0i32, 0, 0, 0], seq![0i32, 0, 0, 0], 0),
    }
}

/// Strides, plane offsets and plane count in exact arithmetic.
pub open spec fn exact_layout(p: PixelFormat, w: int, h: int) -> (Seq<int>, Seq<int>, int) {
    let uw = half_toward_zero(w + 1);
    match p {
        PixelFormat::RGBA | PixelFormat::BGRA => (seq![w * 4, 0, 0, 0], seq![0int, 0, 0, 0], 1),
        PixelFormat::RGB | PixelFormat::BGR => (seq![w * 3, 0, 0, 0], seq![0int, 0, 0, 0], 1),
        PixelFormat::YUV420P => (
            seq![w, uw, uw, 0],
            seq![0, w * h, w * h + uw * half_toward_zero(h + 1), 0],
            3,
        ),
        PixelFormat::NV12 | PixelFormat::NV21 => (seq![w, w, 0, 0], seq![0, w * h, 0, 0], 2),
        PixelFormat::YUV422P => (seq![w, uw, uw, 0], seq![0, w * h, w * h + uw * h, 0], 3),
        PixelFormat::YUY2 | PixelFormat::UYVY => (seq![w * 2, 0, 0, 0], seq![0int, 0, 0, 0], 1),
        PixelFormat::YUV444P => (seq![w, w, w, 0], seq![0, w * h, w * h * 2, 0], 3),
        PixelFormat::GRAY8 => (seq![w, 0, 0, 0], seq![0int, 0, 0, 0], 1),
        PixelFormat::GRAY16 => (seq![w * 2, 0, 0, 0], seq![0int, 0, 0, 0], 1),
        _ => (seq![0int, 0, 0, 0], seq![0int, 0, 0, 0], 0),
    }
}

pub open spec fn fits_i32(x: int) -> bool {
    i32::MIN <= x <= i32::MAX
}

/// Every value of the exact computation of the layout fits in 32 bits.
pub open spec fn layout_fits(p: PixelFormat, w: int, h: int) -> bool {
    let uw = half_toward_zero(w + 1);
    let uh = half_toward_zero(h + 1);
    match p {
        PixelFormat::RGBA | PixelFormat::BGRA => fits_i32(w * 4),
        PixelFormat::RGB | PixelFormat::BGR => fits_i32(w * 3),
        PixelFormat::YUV420P => fits_i32(w + 1) && fits_i32(h + 1) && fits_i32(w * h) && fits_i32(
            uw * uh,
        ) && fits_i32(w * h + uw * uh),
        PixelFormat::NV12 | PixelFormat::NV21 => fits_i32(w * h),
        PixelFormat::YUV422P => fits_i32(w + 1) && fits_i32(w * h) && fits_i32(uw * h) && fits_i32(
            w * h + uw * h,
        ),
        PixelFormat::YUY2 | PixelFormat::UYVY | PixelFormat::GRAY16 => fits_i32(w * 2),
        PixelFormat::YUV444P => fits_i32(w * h) && fits_i32(w * h * 2),
        _ => true,
    }
}

/// A product that fits in 32 bits is computed exactly.
proof fn lemma_mul32_exact(a: i32, b: i32)
    requires
        fits_i32(a * b),
    ensures
        mul32(a, b) == a * b,
{
    let x = a * b;
    let r: int = 0x1_0000_0000;
    if x >= 0 {
        vstd::arithmetic::div_mod::lemma_small_mod(x as nat, r as nat);
    } else {
        vstd::arithmetic::div_mod::lemma_mod_add_multiples_vanish(x, r);
        vstd::arithmetic::div_mod::lemma_small_mod((x + r) as nat, r as nat);
    }
}

/// The layout, computed in 32 bits, is the exact one whenever that fits.
proof fn lemma_layout_exact(p: PixelFormat, w: i32, h: i32)
    requires
        layout_fits(p, w as int, h as int),
    ensures
        plane_layout(p, w, h).0.len() == 4,
        plane_layout(p, w, h).1.len() == 4,
        forall|i: int| 0 <= i < 4 ==> plane_layout(p, w, h).0[i] as int == exact_layout(p, w as int, h as int).0[i],
        forall|i: int| 0 <= i < 4 ==> plane_layout(p, w, h).1[i] as int == exact_layout(p, w as int, h as int).1[i],
        plane_layout(p, w, h).2 as int == exact_layout(p, w as int, h as int).2,
{
    let uw = half_toward_zero(w + 1);
    let uh = half_toward_zero(h + 1);
    match p {
        PixelFormat::RGBA | PixelFormat::BGRA => {
            lemma_mul32_exact(w, 4);
        },
        PixelFormat::RGB | PixelFormat::BGR => {
            lemma_mul32_exact(w, 3);
        },
        PixelFormat::YUV420P => {
            lemma_mul32_exact(w, h);
            assert(chroma_len(w) as int == uw);
            assert(chroma_len(h) as int == uh);
            lemma_mul32_exact(chroma_len(w), chroma_len(h));
        },
        PixelFormat::NV12 | PixelFormat::NV21 => {
            lemma_mul32_exact(w, h);
        },
        PixelFormat::YUV422P => {
            lemma_mul32_exact(w, h);
            assert(chroma_len(w) as int == uw);
            lemma_mul32_exact(chroma_len(w), h);
        },
        PixelFormat::YUY2 | PixelFormat::UYVY | PixelFormat::GRAY16 => {
            lemma_mul32_exact(w, 2);
        },
        PixelFormat::YUV444P => {
            lemma_mul32_exact(w, h);
            lemma_mul32_exact(mul32(w, h), 2);
        },
        _ => {},
    }
}

/// The strides, plane offsets and plane count of a `width` by `height`
/// frame of the format.
fn calc_stride_and_offset(pixel_format: PixelFormat, width: i32, height: i32) -> (r: (
    [i32; 4],
    [i32; 4],
    i32,
))
    ensures
        r.0@ == plane_layout(pixel_format, width, height).0,
        r.1@ == plane_layout(pixel_format, width, height).1,
        r.2 == plane_layout(pixel_format, width, height).2,
{
    let r = match pixel_format {
        PixelFormat::RGBA | PixelFormat::BGRA => ([width.wrapping_mul(4), 0, 0, 0], [0, 0, 0, 0], 1),
        PixelFormat::RGB | PixelFormat::BGR => ([width.wrapping_mul(3), 0, 0, 0], [0, 0, 0, 0], 1),
        PixelFormat::YUV420P => {
            let y_size = width.wrapping_mul(height);
            let uv_width = width.wrapping_add(1) / 2;
            let uv_height = height.wrapping_add(1) / 2;
            (
                [width, uv_width, uv_width, 0],
                [0, y_size, y_size.wrapping_add(uv_width.wrapping_mul(uv_height)), 0],
                3,
            )
        },
        PixelFormat::NV12 | PixelFormat::NV21 => {
            let y_size = width.wrapping_mul(height);
            ([width, width, 0, 0], [0, y_size, 0, 0], 2)
        },
        PixelFormat::YUV422P => {
            let y_size = width.wrapping_mul(height);
            let uv_width = width.wrapping_add(1) / 2;
            (
                [width, uv_width, uv_width, 0],
                [0, y_size, y_size.wrapping_add(uv_width.wrapping_mul(height)), 0],
                3,
            )
        },
        PixelFormat::YUY2 | PixelFormat::UYVY => ([width.wrapping_mul(2), 0, 0, 0], [0, 0, 0, 0], 1),
        PixelFormat::YUV444P => {
            let y_size = width.wrapping_mul(height);
            ([width, width, width, 0], [0, y_size, y_size.wrapping_mul(2), 0], 3)
        },
        PixelFormat::GRAY8 => ([width, 0, 0, 0], [0, 0, 0, 0], 1),
        PixelFormat::GRAY16 => ([width.wrapping_mul(2), 0, 0, 0], [0, 0, 0, 0], 1),
        _ => ([0, 0, 0, 0], [0, 0, 0, 0], 0),
    };
    assert(r.0@ =~= plane_layout(pixel_format, width, height).0);
    assert(r.1@ =~= plane_layout(pixel_format, width, height).1);
    r
}

impl MediaFrame {
    /// A video frame of the format and size holding `data`, with the strides
    /// and plane offsets that the format gives, zero time stamps and
    /// duration, not a key frame and no backend.
    pub fn new(pixel_format: PixelFormat, width: i32, height: i32, data: bytes::Bytes) -> (r:
        MediaFrame)
        ensures
            r.media_type == MediaType::Video,
            r.pixel_format == pixel_format,
            r.width == width,
            r.height == height,
            r.stride@ == plane_layout(pixel_format, width, height).0,
            r.plane_offset@ == plane_layout(pixel_format, width, height).1,
            r.plane_count == plane_layout(pixel_format, width, height).2,
            layout_fits(pixel_format, width as int, height as int) ==> {
                &&& forall|i: int| 0 <= i < 4 ==> r.stride@[i] as int == exact_layout(pixel_format, width as int, height as int).0[i]
                &&& forall|i: int| 0 <= i < 4 ==> r.plane_offset@[i] as int == exact_layout(pixel_format, width as int, height as int).1[i]
                &&& r.plane_count as int == exact_layout(pixel_format, width as int, height as int).2
            },
            r.pts == 0,
            r.dts == 0,
            r.duration == 0,
            !r.keyframe,
            r.data == data,
            r.backend is None,
            r.sample_format == SampleFormat::Unknown,
            r.sample_rate == 0,
            r.channels == 0,
            r.channel_layout == 0,
            r.nb_samples == 0,
            r.bytes_per_sample == 0,
            !r.planar,
    {
        let (stride, plane_offset, plane_count) = calc_stride_and_offset(pixel_format, width, height);
        proof {
            if layout_fits(pixel_format, width as int, height as int) {
                lemma_layout_exact(pixel_format, width, height);
            }
        }
        MediaFrame {
            media_type: MediaType::Video,
            pixel_format,
            width,
            height,
            stride,
            plane_offset,
            plane_count,
            pts: 0,
            dts: 0,
            duration: 0,
            keyframe: false,
            data,
            backend: None,
            sample_format: SampleFormat::Unknown,
            sample_rate: 0,
            channels: 0,
            channel_layout: 0,
            nb_samples: 0,
            bytes_per_sample: 0,
            planar: false,
        }
    }

    /// An audio frame of `nb_samples` samples per channel holding `data`,
    /// with the sample size and layout of its format, no channel layout
    /// mask, no picture, zero time stamps and duration, not a key frame and
    /// no backend.
    pub fn new_audio(
        sample_format: SampleFormat,
        sample_rate: i32,
        channels: i32,
        nb_samples: i32,
        data: bytes::Bytes,
    ) -> (r: MediaFrame)
        ensures
            r.media_type == MediaType::Audio,
            r.pixel_format == PixelFormat::Unknown,
            r.width == 0,
            r.height == 0,
            r.stride@ == seq![0i32, 0, 0, 0],
            r.plane_offset@ == seq![0i32, 0, 0, 0],
            r.plane_count == 0,
            r.pts == 0,
            r.dts == 0,
            r.duration == 0,
            !r.keyframe,
            r.data == data,
            r.backend is None,
            r.sample_format == sample_format,
            r.sample_rate == sample_rate,
            r.channels == channels,
            r.channel_layout == 0,
            r.nb_samples == nb_samples,
            r.bytes_per_sample == sample_bytes(sample_format),
            r.planar == is_planar_format(sample_format),
    {
        let zeros = [0i32, 0, 0, 0];
        assert(zeros@ =~= seq![0i32, 0, 0, 0]);
        let bytes_per_sample = sample_format.bytes_per_sample() as i32;
        MediaFrame {
            media_type: MediaType::Audio,
            pixel_format: PixelFormat::Unknown,
            width: 0,
            height: 0,
            stride: zeros,
            plane_offset: zeros,
            plane_count: 0,
            pts: 0,
            dts: 0,
            duration: 0,
            keyframe: false,
            data,
            backend: None,
            sample_format,
            sample_rate,
            channels,
            channel_layout: 0,
            nb_samples,
            bytes_per_sample,
            planar: sample_format.is_planar(),
        }
    }

    /// Whether the frame holds audio.
    pub fn is_audio(&self) -> (r: bool)
        ensures
            r == (self.media_type == MediaType::Audio),
    {
        match self.media_type {
            MediaType::Audio => true,
            _ => false,
        }
    }

    pub fn with_timestamps(self, pts: i64, dts: i64) -> (r: MediaFrame)
        ensures
            r == (MediaFrame { pts: pts, dts: dts, ..self }),
    {
        let mut s = self;
        s.pts = pts;
        s.dts = dts;
        s
    }

    pub fn with_duration(self, duration: i64) -> (r: MediaFrame)
        ensures
            r == (MediaFrame { duration: duration, ..self }),
    {
        let mut s = self;
        s.duration = duration;
        s
    }

    pub fn with_keyframe(self, keyframe: bool) -> (r: MediaFrame)
        ensures
            r == (MediaFrame { keyframe: keyframe, ..self }),
    {
        let mut s = self;
        s.keyframe = keyframe;
        s
    }

    pub fn with_backend(self, backend: BackendHandle) -> (r: MediaFrame)
        ensures
            r == (MediaFrame { backend: Some(backend), ..self }),
    {
        let mut s = self;
        s.backend = Some(backend);
        s
    }

    pub fn as_slice(&self) -> (r: &[u8])
        ensures
            r@ == bytes_view(self.data),
    {
        bytes_as_slice(&self.data)
    }

    pub fn len(&self) -> (r: usize)
        ensures
            r == bytes_view(self.data).len(),
    {
        bytes_len(&self.data)
    }

    pub fn is_empty(&self) -> (r: bool)
        ensures
            r == (bytes_view(self.data).len() == 0),
    {
        bytes_len(&self.data) == 0
    }

    /// The byte range of plane `i` in `data`, where there is one: the plane
    /// runs from its offset to the next plane's offset, or to the end of
    /// the data for the last plane.
    pub open spec fn plane_span(&self, i: usize) -> Option<(int, int)> {
        let count = self.plane_count as usize;
        let len = bytes_view(self.data).len();
        let start = self.plane_offset@[i as int] as usize;
        let end = if i + 1 < count {
            self.plane_offset@[i + 1] as usize as int
        } else {
            len as int
        };
        if i >= count || start >= len || end > len {
            None
        } else {
            Some((start as int, end))
        }
    }

    /// Reading plane `i` stays within the four planes, and its range does
    /// not run backwards.
    pub open spec fn plane_readable(&self, i: usize) -> bool {
        let count = self.plane_count as usize;
        &&& i < count ==> i < 4
        &&& i + 1 < count ==> i + 1 < 4
        &&& self.plane_span(i) matches Some(s) ==> s.0 <= s.1
    }

    /// The bytes of plane `plane_index`, or `None` where the frame has no
    /// such plane or its range lies outside the data.
    pub fn plane_data(&self, plane_index: usize) -> (r: Option<&[u8]>)
        requires
            self.plane_readable(plane_index),
        ensures
            r is None <==> self.plane_span(plane_index) is None,
            self.plane_span(plane_index) matches Some(s) ==> r matches Some(d) && d@
                == bytes_view(self.data).subrange(s.0, s.1),
    {
        let count = self.plane_count as usize;
        if plane_index >= count {
            return None;
        }
        let offset = self.plane_offset[plane_index] as usize;
        let len = bytes_len(&self.data);
        let next_offset = if plane_index + 1 < count {
            self.plane_offset[plane_index + 1] as usize
        } else {
            len
        };
        if offset >= len || next_offset > len {
            return None;
        }
        let all = bytes_as_slice(&self.data);
        Some(slice_subrange(all, offset, next_offset))
    }

    /// The number of bytes of the frame.
    pub fn frame_size(&self) -> (r: usize)
        ensures
            r == bytes_view(self.data).len(),
    {
        bytes_len(&self.data)
    }
}

impl From<H264AccessUnit> for MediaPacket {
    fn from(au: H264AccessUnit) -> (r: MediaPacket) {
        MediaPacket {
            media_type: MediaType::Video,
            codec_type: CodecType::H264,
            pts: au.timestamp as i64,
            dts: au.timestamp as i64,
            keyframe: au.is_keyframe,
            data: au.data,
            backend: None,
        }
    }
}

impl vstd::std_specs::convert::FromSpecImpl<H264AccessUnit> for MediaPacket {
    open spec fn obeys_from_spec() -> bool {
        true
    }

    open spec fn from_spec(au: H264AccessUnit) -> MediaPacket {
        MediaPacket {
            media_type: MediaType::Video,
            codec_type: CodecType::H264,
            pts: au.timestamp as i64,
            dts: au.timestamp as i64,
            keyframe: au.is_keyframe,
            data: au.data,
            backend: None,
        }
    }
}

impl From<H265AccessUnit> for MediaPacket {
    fn from(au: H265AccessUnit) -> (r: MediaPacket) {
        MediaPacket {
            media_type: MediaType::Video,
            codec_type: CodecType::H265,
            pts: au.timestamp as i64,
            dts: au.timestamp as i64,
            keyframe: au.is_keyframe,
            data: au.data,
            backend: None,
        }
    }
}

impl vstd::std_specs::convert::FromSpecImpl<H265AccessUnit> for MediaPacket {
    open spec fn obeys_from_spec() -> bool {
        true
    }

    open spec fn from_spec(au: H265AccessUnit) -> MediaPacket {
        MediaPacket {
            media_type: MediaType::Video,
            codec_type: CodecType::H265,
            pts: au.timestamp as i64,
            dts: au.timestamp as i64,
            keyframe: au.is_keyframe,
            data: au.data,
            backend: None,
        }
    }
}

impl From<JpegFrame> for MediaPacket {
    /// Every MJPEG frame is a key frame.
    fn from(frame: JpegFrame) -> (r: MediaPacket) {
        MediaPacket {
            media_type: MediaType::Video,
            codec_type: CodecType::MJPEG,
            pts: frame.timestamp as i64,
            dts: frame.timestamp as i64,
            keyframe: true,
            data: frame.data,
            backend: None,
        }
    }
}

impl vstd::std_specs::convert::FromSpecImpl<JpegFrame> for MediaPacket {
    open spec fn obeys_from_spec() -> bool {
        true
    }

    open spec fn from_spec(frame: JpegFrame) -> MediaPacket {
        MediaPacket {
            media_type: MediaType::Video,
            codec_type: CodecType::MJPEG,
            pts: frame.timestamp as i64,
            dts: frame.timestamp as i64,
            keyframe: true,
            data: frame.data,
            backend: None,
        }
    }
}

} // verus!
