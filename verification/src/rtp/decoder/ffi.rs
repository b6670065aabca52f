//! What a native decoder binding reports: its status codes and the frames
//! it describes.
use vstd::prelude::*;
use crate::rtp::decoder::frame::MediaFrame;
use crate::rtp::decoder::types::{
    MediaType, PixelFormat, SampleFormat, media_of_code, pixel_of_code, sample_of_code,
};

verus! {

/// The status a native decoder returns.
#[derive(Debug, Clone, Copy, PartialEq, Eq, Structural)]
pub enum FfiErrorCode {
    Success,
    Failed,
    InvalidParameter,
    DecodeError,
    BufferFull,
    Timeout,
}

impl FfiErrorCode {
    /// The number of the status on the native side: 0 for success, negative
    /// for the failures.
    pub fn code(&self) -> (r: i32)
        ensures
            r == match *self {
                FfiErrorCode::Success => 0i32,
                FfiErrorCode::Failed => -1i32,
                FfiErrorCode::InvalidParameter => -2i32,
                FfiErrorCode::DecodeError => -3i32,
                FfiErrorCode::BufferFull => -4i32,
                FfiErrorCode::Timeout => -5i32,
            },
    {
        match self {
            FfiErrorCode::Success => 0,
            FfiErrorCode::Failed => -1,
            FfiErrorCode::InvalidParameter => -2,
            FfiErrorCode::DecodeError => -3,
            FfiErrorCode::BufferFull => -4,
            FfiErrorCode::Timeout => -5,
        }
    }
}

/// A frame as a native decoder describes it; the decoded bytes travel
/// apart from this record.
#[derive(Debug, Clone)]
pub struct DecodedFrame {
    /// 0 for video, 1 for audio.
    pub media_type: i32,
    pub codec_type: i32,
    pub pixel_format: i32,
    pub width: i32,
    pub height: i32,
    pub stride: [i32; 8],
    pub plane_offset: [i32; 8],
    pub plane_count: i32,
    pub sample_format: i32,
    pub sample_rate: i32,
    pub channels: i32,
    pub channel_layout: u64,
    pub nb_samples: i32,
    pub bytes_per_sample: i32,
    pub planar: bool,
    /// Number of decoded bytes.
    pub size: usize,
    pub pts: i64,
    pub dts: i64,
    pub duration: i64,
    pub keyframe: bool,
}

impl DecodedFrame {
    /// The frame holding `data`: a video frame keeps the format, size and
    /// the first four strides and plane offsets, and has no audio
    /// description; any other frame has no picture and keeps the audio
    /// description.  Both keep the time stamps, duration and key-frame flag.
    pub fn to_media_frame(&self, data: bytes::Bytes) -> (r: MediaFrame)
        ensures
            r.media_type == media_of_code(self.media_type as u32),
            r.media_type == MediaType::Video ==> {
                &&& r.pixel_format == pixel_of_code(self.pixel_format as u32)
                &&& r.width == self.width
                &&& r.height == self.height
                &&& r.stride@ == self.stride@.subrange(0, 4)
                &&& r.plane_offset@ == self.plane_offset@.subrange(0, 4)
                &&& r.plane_count == self.plane_count
            },
            r.media_type != MediaType::Video ==> {
                &&& r.pixel_format == PixelFormat::Unknown
                &&& r.width == 0
                &&& r.height == 0
                &&& r.stride@ == seq![0i32, 0, 0, 0]
                &&& r.plane_offset@ == seq![0i32, 0, 0, 0]
                &&& r.plane_count == 0
            },
            r.media_type == MediaType::Video ==> {
                &&& r.sample_format == SampleFormat::Unknown
                &&& r.sample_rate == 0
                &&& r.channels == 0
                &&& r.channel_layout == 0
                &&& r.nb_samples == 0
                &&& r.bytes_per_sample == 0
                &&& !r.planar
            },
            r.media_type != MediaType::Video ==> {
                &&& r.sample_format == sample_of_code(self.sample_format as u32)
                &&& r.sample_rate == self.sample_rate
                &&& r.channels == self.channels
                &&& r.channel_layout == self.channel_layout
                &&& r.nb_samples == self.nb_samples
                &&& r.bytes_per_sample == self.bytes_per_sample
                &&& r.planar == self.planar
            },
            r.pts == self.pts,
            r.dts == self.dts,
            r.duration == self.duration,
            r.keyframe == self.keyframe,
            r.data == data,
            r.backend is None,
    {
        let media_type = MediaType::from_u32(self.media_type as u32);
        match media_type {
            MediaType::Video => {
                let stride = [self.stride[0], self.stride[1], self.stride[2], self.stride[3]];
                let plane_offset = [
                    self.plane_offset[0],
                    self.plane_offset[1],
                    self.plane_offset[2],
                    self.plane_offset[3],
                ];
                assert(stride@ =~= self.stride@.subrange(0, 4));
                assert(plane_offset@ =~= self.plane_offset@.subrange(0, 4));
                MediaFrame {
                    media_type,
                    pixel_format: PixelFormat::from_u32(self.pixel_format as u32),
                    width: self.width,
                    height: self.height,
                    stride,
                    plane_offset,
                    plane_count: self.plane_count,
                    pts: self.pts,
                    dts: self.dts,
                    duration: self.duration,
                    keyframe: self.keyframe,
                    data,
                    backend: None,
                    sample_format: SampleFormat::Unknown,
                    sample_rate: 0,
                    channels: 0,
                    channel_layout: 0,
                    nb_samples: 0,
                    bytes_per_sample: 0,
                    planar: false,
                }
            },
            _ => {
                let zeros = [0i32, 0, 0, 0];
                assert(zeros@ =~= seq![0i32, 0, 0, 0]);
                MediaFrame {
                    media_type,
                    pixel_format: PixelFormat::Unknown,
                    width: 0,
                    height: 0,
                    stride: zeros,
                    plane_offset: zeros,
                    plane_count: 0,
                    pts: self.pts,
                    dts: self.dts,
                    duration: self.duration,
                    keyframe: self.keyframe,
                    data,
                    backend: None,
                    sample_format: SampleFormat::from_u32(self.sample_format as u32),
                    sample_rate: self.sample_rate,
                    channels: self.channels,
                    channel_layout: self.channel_layout,
                    nb_samples: self.nb_samples,
                    bytes_per_sample: self.bytes_per_sample,
                    planar: self.planar,
                }
            },
        }
    }
}

} // verus!
