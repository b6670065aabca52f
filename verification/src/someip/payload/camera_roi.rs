//! Camera region-of-interest payloads.
use vstd::prelude::*;
use crate::wire::{
    be16, be32, get_ne16, get_ne32, holds_at, lemma_ne16, lemma_ne32, lemma_to_be_wire16,
    lemma_to_be_wire32, native_little, ne16, ne32, push_ne16, push_ne32, read_ne16, read_ne32,
    swap32, to_be16_of, to_be32_of, u16_to_be, u32_to_be,
};
use crate::someip::error::{SomeIPError, SomeIPResult};
use crate::someip::method::SomeIPMethod;
use crate::someip::payload::{Payload, PayloadCodec};

verus! {

/// Region-of-interest settings of one camera stream; 45 bytes on the wire.
/// The four corner values travel in the machine's byte order, the other
/// multi-byte values big-endian.
#[derive(Debug, Clone, Copy, PartialEq, Eq)]
pub struct SetCameraROIPayload {
    pub index: u32,
    pub quad1: u16,
    pub quad2: u16,
    pub quad3: u16,
    pub quad4: u16,
    pub enable: u8,
    pub trans_method: u8,
    pub trans_cycle: u16,
    pub width: u16,
    pub height: u16,
    pub frame_rate: u32,
    pub interlaced: u8,
    pub color_space: u8,
    pub max_bitrate: u32,
    pub video_compression: u8,
    pub histogram_enable: u8,
    pub histogram_update_cycle: u8,
    pub used_video_component: u8,
    pub data_type: u8,
    pub bin_size: u8,
    pub number_of_bins: u16,
    pub block_enable: bool,
    pub brightness: u8,
    pub contrast: u8,
    pub saturation: u8,
    pub sharpness: u8,
    pub stream_at_boot: bool,
    pub alg_status_indicator: bool,
}

/// The region-of-interest settings read back from a camera: the same fields
/// without the stream index.
#[derive(Debug, Clone, Copy, PartialEq, Eq)]
pub struct GetCameraROIPayload {
    pub quad1: u16,
    pub quad2: u16,
    pub quad3: u16,
    pub quad4: u16,
    pub enable: u8,
    pub trans_method: u8,
    pub trans_cycle: u16,
    pub width: u16,
    pub height: u16,
    pub frame_rate: u32,
    pub interlaced: u8,
    pub color_space: u8,
    pub max_bitrate: u32,
    pub video_compression: u8,
    pub histogram_enable: u8,
    pub histogram_update_cycle: u8,
    pub used_video_component: u8,
    pub data_type: u8,
    pub bin_size: u8,
    pub number_of_bins: u16,
    pub block_enable: bool,
    pub brightness: u8,
    pub contrast: u8,
    pub saturation: u8,
    pub sharpness: u8,
    pub stream_at_boot: bool,
    pub alg_status_indicator: bool,
}

/// The byte that stands for a flag.
pub open spec fn flag_byte(b: bool) -> u8 {
    if b {
        1
    } else {
        0
    }
}

/// Bytes 12 to 45 of a region-of-interest payload: each multi-byte field's
/// bytes as they lie in memory.
pub open spec fn roi_tail(p: SetCameraROIPayload) -> Seq<u8> {
    seq![p.enable, p.trans_method] + ne16(p.trans_cycle) + ne16(p.width) + ne16(p.height) + ne32(
        p.frame_rate,
    ) + seq![p.interlaced, p.color_space] + ne32(p.max_bitrate) + seq![
        p.video_compression,
        p.histogram_enable,
        p.histogram_update_cycle,
        p.used_video_component,
        p.data_type,
        p.bin_size,
    ] + ne16(p.number_of_bins) + seq![
        flag_byte(p.block_enable),
        p.brightness,
        p.contrast,
        p.saturation,
        p.sharpness,
        flag_byte(p.stream_at_boot),
        flag_byte(p.alg_status_indicator),
    ]
}

/// `b` is the encoding of `p`: every field's bytes as they lie in memory,
/// as the device's C structure is sent. The fields made with `to_be` so go
/// out big-endian, the corners in the machine's order.
pub open spec fn set_roi_encodes(p: SetCameraROIPayload, b: Seq<u8>) -> bool {
    b == ne32(p.index) + ne16(p.quad1) + ne16(p.quad2) + ne16(p.quad3) + ne16(p.quad4) + roi_tail(p)
}

/// `p` is what the first 45 bytes of `s` decode to.
pub open spec fn set_roi_matches(s: Seq<u8>, p: SetCameraROIPayload) -> bool {
    &&& s.len() >= 45
    &&& p.index == get_ne32(s, 0)
    &&& p.quad1 == get_ne16(s, 4)
    &&& p.quad2 == get_ne16(s, 6)
    &&& p.quad3 == get_ne16(s, 8)
    &&& p.quad4 == get_ne16(s, 10)
    &&& p.enable == s[12]
    &&& p.trans_method == s[13]
    &&& p.trans_cycle == get_ne16(s, 14)
    &&& p.width == get_ne16(s, 16)
    &&& p.height == get_ne16(s, 18)
    &&& p.frame_rate == get_ne32(s, 20)
    &&& p.interlaced == s[24]
    &&& p.color_space == s[25]
    &&& p.max_bitrate == get_ne32(s, 26)
    &&& p.video_compression == s[30]
    &&& p.histogram_enable == s[31]
    &&& p.histogram_update_cycle == s[32]
    &&& p.used_video_component == s[33]
    &&& p.data_type == s[34]
    &&& p.bin_size == s[35]
    &&& p.number_of_bins == get_ne16(s, 36)
    &&& p.block_enable == (s[38] != 0)
    &&& p.brightness == s[39]
    &&& p.contrast == s[40]
    &&& p.saturation == s[41]
    &&& p.sharpness == s[42]
    &&& p.stream_at_boot == (s[43] != 0)
    &&& p.alg_status_indicator == (s[44] != 0)
}

/// `r` is a possible result of decoding `s`.
pub open spec fn set_roi_decodes(s: Seq<u8>, r: SomeIPResult<SetCameraROIPayload>) -> bool {
    match r {
        Ok(p) => set_roi_matches(s, p),
        Err(e) => s.len() < 45 && e == (SomeIPError::InsufficientBuffer {
            expected: 45,
            actual: s.len() as usize,
        }),
    }
}

/// The index of stream 1 as `to_be` gives it.
pub open spec fn stream_one() -> u32 {
    if native_little() {
        swap32(1)
    } else {
        1
    }
}

/// The settings of `g` for stream `index`.
pub open spec fn with_index(g: GetCameraROIPayload, index: u32) -> SetCameraROIPayload {
    SetCameraROIPayload {
        index,
        quad1: g.quad1,
        quad2: g.quad2,
        quad3: g.quad3,
        quad4: g.quad4,
        enable: g.enable,
        trans_method: g.trans_method,
        trans_cycle: g.trans_cycle,
        width: g.width,
        height: g.height,
        frame_rate: g.frame_rate,
        interlaced: g.interlaced,
        color_space: g.color_space,
        max_bitrate: g.max_bitrate,
        video_compression: g.video_compression,
        histogram_enable: g.histogram_enable,
        histogram_update_cycle: g.histogram_update_cycle,
        used_video_component: g.used_video_component,
        data_type: g.data_type,
        bin_size: g.bin_size,
        number_of_bins: g.number_of_bins,
        block_enable: g.block_enable,
        brightness: g.brightness,
        contrast: g.contrast,
        saturation: g.saturation,
        sharpness: g.sharpness,
        stream_at_boot: g.stream_at_boot,
        alg_status_indicator: g.alg_status_indicator,
    }
}

/// The settings of `p` without its stream index.
pub open spec fn without_index(p: SetCameraROIPayload) -> GetCameraROIPayload {
    GetCameraROIPayload {
        quad1: p.quad1,
        quad2: p.quad2,
        quad3: p.quad3,
        quad4: p.quad4,
        enable: p.enable,
        trans_method: p.trans_method,
        trans_cycle: p.trans_cycle,
        width: p.width,
        height: p.height,
        frame_rate: p.frame_rate,
        interlaced: p.interlaced,
        color_space: p.color_space,
        max_bitrate: p.max_bitrate,
        video_compression: p.video_compression,
        histogram_enable: p.histogram_enable,
        histogram_update_cycle: p.histogram_update_cycle,
        used_video_component: p.used_video_component,
        data_type: p.data_type,
        bin_size: p.bin_size,
        number_of_bins: p.number_of_bins,
        block_enable: p.block_enable,
        brightness: p.brightness,
        contrast: p.contrast,
        saturation: p.saturation,
        sharpness: p.sharpness,
        stream_at_boot: p.stream_at_boot,
        alg_status_indicator: p.alg_status_indicator,
    }
}

/// `r` is a possible result of decoding a read-back payload from `s`: the
/// stream index in bytes 0..4 is skipped.
pub open spec fn get_roi_decodes(s: Seq<u8>, r: SomeIPResult<GetCameraROIPayload>) -> bool {
    match r {
        Ok(g) => exists|p: SetCameraROIPayload| set_roi_matches(s, p) && g == without_index(p),
        Err(e) => s.len() < 45 && e == (SomeIPError::InsufficientBuffer {
            expected: 45,
            actual: s.len() as usize,
        }),
    }
}

/// The settings shared by the default payloads, the corners left free.
pub open spec fn roi_defaults(p: SetCameraROIPayload) -> bool {
    &&& p.enable == 1 && p.trans_method == 0
    &&& to_be16_of(p.trans_cycle, 0)
    &&& to_be16_of(p.width, 1280)
    &&& to_be16_of(p.height, 800)
    &&& to_be32_of(p.frame_rate, 0x1E0000)
    &&& p.interlaced == 0 && p.color_space == 0x80
    &&& to_be32_of(p.max_bitrate, 10)
    &&& p.video_compression == 2 && p.histogram_enable == 0 && p.histogram_update_cycle == 0
    &&& p.used_video_component == 0 && p.data_type == 4 && p.bin_size == 1
    &&& to_be16_of(p.number_of_bins, 0)
    &&& p.block_enable && p.brightness == 50 && p.contrast == 50 && p.saturation == 50
    &&& p.sharpness == 50 && !p.stream_at_boot && p.alg_status_indicator
}

impl SetCameraROIPayload {
    /// Settings with the given fields; the multi-byte fields other than the
    /// corners pass through `to_be`.
    pub fn new(
        index: u32,
        quad1: u16,
        quad2: u16,
        quad3: u16,
        quad4: u16,
        enable: u8,
        trans_method: u8,
        trans_cycle: u16,
        width: u16,
        height: u16,
        frame_rate: u32,
        interlaced: u8,
        color_space: u8,
        max_bitrate: u32,
        video_compression: u8,
        histogram_enable: u8,
        histogram_update_cycle: u8,
        used_video_component: u8,
        data_type: u8,
        bin_size: u8,
        number_of_bins: u16,
        block_enable: bool,
        brightness: u8,
        contrast: u8,
        saturation: u8,
        sharpness: u8,
        stream_at_boot: bool,
        alg_status_indicator: bool,
    ) -> (r: SetCameraROIPayload)
        ensures
            to_be32_of(r.index, index),
            r.quad1 == quad1 && r.quad2 == quad2 && r.quad3 == quad3 && r.quad4 == quad4,
            r.enable == enable && r.trans_method == trans_method,
            to_be16_of(r.trans_cycle, trans_cycle),
            to_be16_of(r.width, width),
            to_be16_of(r.height, height),
            to_be32_of(r.frame_rate, frame_rate),
            r.interlaced == interlaced && r.color_space == color_space,
            to_be32_of(r.max_bitrate, max_bitrate),
            r.video_compression == video_compression && r.histogram_enable == histogram_enable,
            r.histogram_update_cycle == histogram_update_cycle,
            r.used_video_component == used_video_component && r.data_type == data_type,
            r.bin_size == bin_size,
            to_be16_of(r.number_of_bins, number_of_bins),
            r.block_enable == block_enable && r.brightness == brightness && r.contrast == contrast,
            r.saturation == saturation && r.sharpness == sharpness,
            r.stream_at_boot == stream_at_boot && r.alg_status_indicator == alg_status_indicator,
    {
        SetCameraROIPayload {
            index: u32_to_be(index),
            quad1,
            quad2,
            quad3,
            quad4,
            enable,
            trans_method,
            trans_cycle: u16_to_be(trans_cycle),
            width: u16_to_be(width),
            height: u16_to_be(height),
            frame_rate: u32_to_be(frame_rate),
            interlaced,
            color_space,
            max_bitrate: u32_to_be(max_bitrate),
            video_compression,
            histogram_enable,
            histogram_update_cycle,
            used_video_component,
            data_type,
            bin_size,
            number_of_bins: u16_to_be(number_of_bins),
            block_enable,
            brightness,
            contrast,
            saturation,
            sharpness,
            stream_at_boot,
            alg_status_indicator,
        }
    }

    /// Stream 1, corners 0, a 1280x800 stream at 30 fps and the default
    /// picture settings; multi-byte fields other than the corners pass
    /// through `to_be`.
    pub fn default_payload() -> (r: SetCameraROIPayload)
        ensures
            to_be32_of(r.index, 1),
            r.quad1 == 0 && r.quad2 == 0 && r.quad3 == 0 && r.quad4 == 0,
            roi_defaults(r),
    {
        assert((30u32 << 16u32) == 0x1E0000u32) by (bit_vector);
        SetCameraROIPayload {
            index: u32_to_be(0x01),
            quad1: 0,
            quad2: 0,
            quad3: 0,
            quad4: 0,
            enable: 1,
            trans_method: 0,
            trans_cycle: u16_to_be(0),
            width: u16_to_be(1280),
            height: u16_to_be(800),
            frame_rate: u32_to_be(30u32 << 16u32),
            interlaced: 0,
            color_space: 0x80,
            max_bitrate: u32_to_be(10),
            video_compression: 0x02,
            histogram_enable: 0x00,
            histogram_update_cycle: 0x00,
            used_video_component: 0x00,
            data_type: 0x04,
            bin_size: 0x01,
            number_of_bins: u16_to_be(0),
            block_enable: true,
            brightness: 50,
            contrast: 50,
            saturation: 50,
            sharpness: 50,
            stream_at_boot: false,
            alg_status_indicator: true,
        }
    }

    /// The 45 bytes of the settings: each field's bytes as they lie in
    /// memory.
    pub fn to_bytes(&self) -> (r: Vec<u8>)
        ensures
            set_roi_encodes(*self, r@),
    {
        let mut bytes: Vec<u8> = Vec::new();
        push_ne32(&mut bytes, self.index);
        push_ne16(&mut bytes, self.quad1);
        push_ne16(&mut bytes, self.quad2);
        push_ne16(&mut bytes, self.quad3);
        push_ne16(&mut bytes, self.quad4);
        let mut tail: Vec<u8> = Vec::new();
        tail.push(self.enable);
        tail.push(self.trans_method);
        push_ne16(&mut tail, self.trans_cycle);
        push_ne16(&mut tail, self.width);
        push_ne16(&mut tail, self.height);
        push_ne32(&mut tail, self.frame_rate);
        tail.push(self.interlaced);
        tail.push(self.color_space);
        push_ne32(&mut tail, self.max_bitrate);
        tail.push(self.video_compression);
        tail.push(self.histogram_enable);
        tail.push(self.histogram_update_cycle);
        tail.push(self.used_video_component);
        tail.push(self.data_type);
        tail.push(self.bin_size);
        push_ne16(&mut tail, self.number_of_bins);
        tail.push(if self.block_enable { 1 } else { 0 });
        tail.push(self.brightness);
        tail.push(self.contrast);
        tail.push(self.saturation);
        tail.push(self.sharpness);
        tail.push(if self.stream_at_boot { 1 } else { 0 });
        tail.push(if self.alg_status_indicator { 1 } else { 0 });
        assert(tail@ =~= roi_tail(*self));
        crate::wire::push_all(&mut bytes, tail.as_slice());
        bytes
    }

    /// Decodes the settings from the first 45 bytes of `bytes`.
    pub fn from_bytes(bytes: &[u8]) -> (r: SomeIPResult<SetCameraROIPayload>)
        ensures
            set_roi_decodes(bytes@, r),
    {
        if bytes.len() < 45 {
            return Err(SomeIPError::insufficient_buffer(45, bytes.len()));
        }
        Ok(SetCameraROIPayload {
            index: read_ne32(bytes, 0),
            quad1: read_ne16(bytes, 4),
            quad2: read_ne16(bytes, 6),
            quad3: read_ne16(bytes, 8),
            quad4: read_ne16(bytes, 10),
            enable: bytes[12],
            trans_method: bytes[13],
            trans_cycle: read_ne16(bytes, 14),
            width: read_ne16(bytes, 16),
            height: read_ne16(bytes, 18),
            frame_rate: read_ne32(bytes, 20),
            interlaced: bytes[24],
            color_space: bytes[25],
            max_bitrate: read_ne32(bytes, 26),
            video_compression: bytes[30],
            histogram_enable: bytes[31],
            histogram_update_cycle: bytes[32],
            used_video_component: bytes[33],
            data_type: bytes[34],
            bin_size: bytes[35],
            number_of_bins: read_ne16(bytes, 36),
            block_enable: bytes[38] != 0,
            brightness: bytes[39],
            contrast: bytes[40],
            saturation: bytes[41],
            sharpness: bytes[42],
            stream_at_boot: bytes[43] != 0,
            alg_status_indicator: bytes[44] != 0,
        })
    }

    /// The settings without the stream index.
    fn strip_index(&self) -> (r: GetCameraROIPayload)
        ensures
            r == without_index(*self),
    {
        GetCameraROIPayload {
            quad1: self.quad1,
            quad2: self.quad2,
            quad3: self.quad3,
            quad4: self.quad4,
            enable: self.enable,
            trans_method: self.trans_method,
            trans_cycle: self.trans_cycle,
            width: self.width,
            height: self.height,
            frame_rate: self.frame_rate,
            interlaced: self.interlaced,
            color_space: self.color_space,
            max_bitrate: self.max_bitrate,
            video_compression: self.video_compression,
            histogram_enable: self.histogram_enable,
            histogram_update_cycle: self.histogram_update_cycle,
            used_video_component: self.used_video_component,
            data_type: self.data_type,
            bin_size: self.bin_size,
            number_of_bins: self.number_of_bins,
            block_enable: self.block_enable,
            brightness: self.brightness,
            contrast: self.contrast,
            saturation: self.saturation,
            sharpness: self.sharpness,
            stream_at_boot: self.stream_at_boot,
            alg_status_indicator: self.alg_status_indicator,
        }
    }
}

impl GetCameraROIPayload {
    /// Settings with the given fields; the multi-byte fields other than the
    /// corners pass through `to_be`.
    pub fn new(
        quad1: u16,
        quad2: u16,
        quad3: u16,
        quad4: u16,
        enable: u8,
        trans_method: u8,
        trans_cycle: u16,
        width: u16,
        height: u16,
        frame_rate: u32,
        interlaced: u8,
        color_space: u8,
        max_bitrate: u32,
        video_compression: u8,
        histogram_enable: u8,
        histogram_update_cycle: u8,
        used_video_component: u8,
        data_type: u8,
        bin_size: u8,
        number_of_bins: u16,
        block_enable: bool,
        brightness: u8,
        contrast: u8,
        saturation: u8,
        sharpness: u8,
        stream_at_boot: bool,
        alg_status_indicator: bool,
    ) -> (r: GetCameraROIPayload)
        ensures
            r.quad1 == quad1 && r.quad2 == quad2 && r.quad3 == quad3 && r.quad4 == quad4,
            r.enable == enable && r.trans_method == trans_method,
            to_be16_of(r.trans_cycle, trans_cycle),
            to_be16_of(r.width, width),
            to_be16_of(r.height, height),
            to_be32_of(r.frame_rate, frame_rate),
            r.interlaced == interlaced && r.color_space == color_space,
            to_be32_of(r.max_bitrate, max_bitrate),
            r.video_compression == video_compression && r.histogram_enable == histogram_enable,
            r.histogram_update_cycle == histogram_update_cycle,
            r.used_video_component == used_video_component && r.data_type == data_type,
            r.bin_size == bin_size,
            to_be16_of(r.number_of_bins, number_of_bins),
            r.block_enable == block_enable && r.brightness == brightness && r.contrast == contrast,
            r.saturation == saturation && r.sharpness == sharpness,
            r.stream_at_boot == stream_at_boot && r.alg_status_indicator == alg_status_indicator,
    {
        GetCameraROIPayload {
            quad1,
            quad2,
            quad3,
            quad4,
            enable,
            trans_method,
            trans_cycle: u16_to_be(trans_cycle),
            width: u16_to_be(width),
            height: u16_to_be(height),
            frame_rate: u32_to_be(frame_rate),
            interlaced,
            color_space,
            max_bitrate: u32_to_be(max_bitrate),
            video_compression,
            histogram_enable,
            histogram_update_cycle,
            used_video_component,
            data_type,
            bin_size,
            number_of_bins: u16_to_be(number_of_bins),
            block_enable,
            brightness,
            contrast,
            saturation,
            sharpness,
            stream_at_boot,
            alg_status_indicator,
        }
    }

    /// Corners (0, 0, 1920, 1080) with the default stream settings.
    pub fn default_payload() -> (r: GetCameraROIPayload)
        ensures
            r.quad1 == 0 && r.quad2 == 0 && r.quad3 == 1920 && r.quad4 == 1080,
            roi_defaults(with_index(r, 1)),
    {
        assert((30u32 << 16u32) == 0x1E0000u32) by (bit_vector);
        GetCameraROIPayload {
            quad1: 0,
            quad2: 0,
            quad3: 1920,
            quad4: 1080,
            enable: 1,
            trans_method: 0,
            trans_cycle: u16_to_be(0),
            width: u16_to_be(1280),
            height: u16_to_be(800),
            frame_rate: u32_to_be(30u32 << 16u32),
            interlaced: 0,
            color_space: 0x80,
            max_bitrate: u32_to_be(10),
            video_compression: 0x02,
            histogram_enable: 0x00,
            histogram_update_cycle: 0x00,
            used_video_component: 0x00,
            data_type: 0x04,
            bin_size: 0x01,
            number_of_bins: u16_to_be(0),
            block_enable: true,
            brightness: 50,
            contrast: 50,
            saturation: 50,
            sharpness: 50,
            stream_at_boot: false,
            alg_status_indicator: true,
        }
    }

    /// The settings for stream `index`.
    fn for_stream(&self, index: u32) -> (r: SetCameraROIPayload)
        ensures
            r == with_index(*self, index),
    {
        SetCameraROIPayload {
            index,
            quad1: self.quad1,
            quad2: self.quad2,
            quad3: self.quad3,
            quad4: self.quad4,
            enable: self.enable,
            trans_method: self.trans_method,
            trans_cycle: self.trans_cycle,
            width: self.width,
            height: self.height,
            frame_rate: self.frame_rate,
            interlaced: self.interlaced,
            color_space: self.color_space,
            max_bitrate: self.max_bitrate,
            video_compression: self.video_compression,
            histogram_enable: self.histogram_enable,
            histogram_update_cycle: self.histogram_update_cycle,
            used_video_component: self.used_video_component,
            data_type: self.data_type,
            bin_size: self.bin_size,
            number_of_bins: self.number_of_bins,
            block_enable: self.block_enable,
            brightness: self.brightness,
            contrast: self.contrast,
            saturation: self.saturation,
            sharpness: self.sharpness,
            stream_at_boot: self.stream_at_boot,
            alg_status_indicator: self.alg_status_indicator,
        }
    }

    /// The 45 bytes of the settings, written for stream 1 (the index as
    /// `to_be` gives it, so that it goes out big-endian).
    pub fn to_bytes(&self) -> (r: Vec<u8>)
        ensures
            set_roi_encodes(with_index(*self, stream_one()), r@),
    {
        self.for_stream(u32_to_be(1)).to_bytes()
    }

    /// Decodes the settings from the first 45 bytes of `bytes`, skipping the
    /// stream index.
    pub fn from_bytes(bytes: &[u8]) -> (r: SomeIPResult<GetCameraROIPayload>)
        ensures
            get_roi_decodes(bytes@, r),
    {
        match SetCameraROIPayload::from_bytes(bytes) {
            Ok(p) => Ok(p.strip_index()),
            Err(e) => Err(e),
        }
    }
}

impl Payload for SetCameraROIPayload {
    open spec fn wire_method(&self) -> SomeIPMethod {
        SomeIPMethod::SetROI
    }

    open spec fn encodes_as(&self, bytes: Seq<u8>) -> bool {
        set_roi_encodes(*self, bytes)
    }

    fn method_id(&self) -> (r: SomeIPMethod) {
        SomeIPMethod::SetROI
    }

    fn encode(&self) -> (r: Vec<u8>) {
        self.to_bytes()
    }
}

impl PayloadCodec for SetCameraROIPayload {
    open spec fn decodes_as(data: Seq<u8>, r: SomeIPResult<Self>) -> bool {
        set_roi_decodes(data, r)
    }

    fn decode(data: &[u8]) -> (r: SomeIPResult<Self>) {
        Self::from_bytes(data)
    }
}

impl Payload for GetCameraROIPayload {
    open spec fn wire_method(&self) -> SomeIPMethod {
        SomeIPMethod::GetROI
    }

    open spec fn encodes_as(&self, bytes: Seq<u8>) -> bool {
        set_roi_encodes(with_index(*self, stream_one()), bytes)
    }

    fn method_id(&self) -> (r: SomeIPMethod) {
        SomeIPMethod::GetROI
    }

    fn encode(&self) -> (r: Vec<u8>) {
        self.to_bytes()
    }
}

impl PayloadCodec for GetCameraROIPayload {
    open spec fn decodes_as(data: Seq<u8>, r: SomeIPResult<Self>) -> bool {
        get_roi_decodes(data, r)
    }

    fn decode(data: &[u8]) -> (r: SomeIPResult<Self>) {
        Self::from_bytes(data)
    }
}

/// Decoding the bytes of region-of-interest settings gives every field back.
#[verifier::rlimit(40)]
pub proof fn lemma_set_roi_roundtrip(p: SetCameraROIPayload, b: Seq<u8>, q: SetCameraROIPayload)
    requires
        set_roi_encodes(p, b),
        set_roi_matches(b, q),
    ensures
        q == p,
{
    lemma_set_roi_fields(p, b);
    lemma_ne32(p.index, b, 0, q.index);
    lemma_ne16(p.quad1, b, 4, q.quad1);
    lemma_ne16(p.quad2, b, 6, q.quad2);
    lemma_ne16(p.quad3, b, 8, q.quad3);
    lemma_ne16(p.quad4, b, 10, q.quad4);
    lemma_ne16(p.trans_cycle, b, 14, q.trans_cycle);
    lemma_ne16(p.width, b, 16, q.width);
    lemma_ne16(p.height, b, 18, q.height);
    lemma_ne32(p.frame_rate, b, 20, q.frame_rate);
    lemma_ne32(p.max_bitrate, b, 26, q.max_bitrate);
    lemma_ne16(p.number_of_bins, b, 36, q.number_of_bins);
}

/// Where each field of `p` lies in its encoding.
#[verifier::rlimit(40)]
proof fn lemma_set_roi_fields(p: SetCameraROIPayload, b: Seq<u8>)
    requires
        set_roi_encodes(p, b),
    ensures
        b.len() == 45,
        holds_at(b, 0, ne32(p.index)),
        holds_at(b, 4, ne16(p.quad1)),
        holds_at(b, 6, ne16(p.quad2)),
        holds_at(b, 8, ne16(p.quad3)),
        holds_at(b, 10, ne16(p.quad4)),
        b[12] == p.enable && b[13] == p.trans_method,
        holds_at(b, 14, ne16(p.trans_cycle)),
        holds_at(b, 16, ne16(p.width)),
        holds_at(b, 18, ne16(p.height)),
        holds_at(b, 20, ne32(p.frame_rate)),
        b[24] == p.interlaced && b[25] == p.color_space,
        holds_at(b, 26, ne32(p.max_bitrate)),
        b[30] == p.video_compression && b[31] == p.histogram_enable && b[32]
            == p.histogram_update_cycle && b[33] == p.used_video_component && b[34] == p.data_type
            && b[35] == p.bin_size,
        holds_at(b, 36, ne16(p.number_of_bins)),
        b[38] == flag_byte(p.block_enable) && b[39] == p.brightness && b[40] == p.contrast && b[41]
            == p.saturation && b[42] == p.sharpness && b[43] == flag_byte(p.stream_at_boot) && b[44]
            == flag_byte(p.alg_status_indicator),
{
    let t = roi_tail(p);
    assert forall|k: int| 0 <= k < 33 implies #[trigger] b[12 + k] == t[k] by {}
    assert forall|k: int| 0 <= k < 4 implies #[trigger] b[0 + k] == ne32(p.index)[k] by {}
    assert forall|k: int| 0 <= k < 2 implies #[trigger] b[4 + k] == ne16(p.quad1)[k] by {}
    assert forall|k: int| 0 <= k < 2 implies #[trigger] b[6 + k] == ne16(p.quad2)[k] by {}
    assert forall|k: int| 0 <= k < 2 implies #[trigger] b[8 + k] == ne16(p.quad3)[k] by {}
    assert forall|k: int| 0 <= k < 2 implies #[trigger] b[10 + k] == ne16(p.quad4)[k] by {}
    assert(b[12int + 0] == t[0] && b[12int + 1] == t[1]);
    assert forall|k: int| 0 <= k < 2 implies #[trigger] b[14 + k] == ne16(p.trans_cycle)[k] by {
        assert(b[12 + (2 + k)] == t[2 + k]);
    }
    assert forall|k: int| 0 <= k < 2 implies #[trigger] b[16 + k] == ne16(p.width)[k] by {
        assert(b[12 + (4 + k)] == t[4 + k]);
    }
    assert forall|k: int| 0 <= k < 2 implies #[trigger] b[18 + k] == ne16(p.height)[k] by {
        assert(b[12 + (6 + k)] == t[6 + k]);
    }
    assert forall|k: int| 0 <= k < 4 implies #[trigger] b[20 + k] == ne32(p.frame_rate)[k] by {
        assert(b[12 + (8 + k)] == t[8 + k]);
    }
    assert(b[12int + 12] == t[12] && b[12int + 13] == t[13]);
    assert forall|k: int| 0 <= k < 4 implies #[trigger] b[26 + k] == ne32(p.max_bitrate)[k] by {
        assert(b[12 + (14 + k)] == t[14 + k]);
    }
    assert(b[12int + 18] == t[18] && b[12int + 19] == t[19] && b[12int + 20] == t[20] && b[12int + 21] == t[21]
        && b[12int + 22] == t[22] && b[12int + 23] == t[23]);
    assert forall|k: int| 0 <= k < 2 implies #[trigger] b[36 + k] == ne16(p.number_of_bins)[k] by {
        assert(b[12 + (24 + k)] == t[24 + k]);
    }
    assert(b[12int + 26] == t[26] && b[12int + 27] == t[27] && b[12int + 28] == t[28] && b[12int + 29] == t[29]
        && b[12int + 30] == t[30] && b[12int + 31] == t[31] && b[12int + 32] == t[32]);
}

/// Decoding the bytes of queried region-of-interest settings gives every
/// field back.
pub proof fn lemma_get_roi_roundtrip(g: GetCameraROIPayload, b: Seq<u8>, h: GetCameraROIPayload)
    requires
        set_roi_encodes(with_index(g, stream_one()), b),
        get_roi_decodes(b, Ok(h)),
    ensures
        h == g,
{
    let q = choose|q: SetCameraROIPayload| set_roi_matches(b, q) && h == without_index(q);
    lemma_set_roi_roundtrip(with_index(g, stream_one()), b, q);
}

/// The wire layout of ROI settings: 45 bytes in the order of the fields,
/// each read back from its own offset in the machine's byte order: index
/// at 0, the four quadrants at 4, 6, 8 and 10, enable and transmission
/// method at 12 and 13, transmission cycle at 14, width at 16, height at
/// 18, frame rate at 20, interlace and colour space at 24 and 25, maximum
/// bitrate at 26, the six one-byte video and histogram fields at 30 to 35,
/// the number of bins at 36, and the seven one-byte flags and levels at 38
/// to 44.
pub proof fn lemma_set_roi_layout(p: SetCameraROIPayload, b: Seq<u8>)
    requires
        set_roi_encodes(p, b),
    ensures
        b.len() == 45,
        get_ne32(b, 0) == p.index,
        get_ne16(b, 4) == p.quad1 && get_ne16(b, 6) == p.quad2 && get_ne16(b, 8) == p.quad3
            && get_ne16(b, 10) == p.quad4,
        b[12] == p.enable && b[13] == p.trans_method,
        get_ne16(b, 14) == p.trans_cycle,
        get_ne16(b, 16) == p.width,
        get_ne16(b, 18) == p.height,
        get_ne32(b, 20) == p.frame_rate,
        b[24] == p.interlaced && b[25] == p.color_space,
        get_ne32(b, 26) == p.max_bitrate,
        b[30] == p.video_compression && b[31] == p.histogram_enable && b[32]
            == p.histogram_update_cycle && b[33] == p.used_video_component && b[34] == p.data_type
            && b[35] == p.bin_size,
        get_ne16(b, 36) == p.number_of_bins,
        b[38] == (if p.block_enable { 1u8 } else { 0u8 }) && b[39] == p.brightness && b[40]
            == p.contrast && b[41] == p.saturation && b[42] == p.sharpness && b[43] == (if p.stream_at_boot {
            1u8
        } else {
            0u8
        }) && b[44] == (if p.alg_status_indicator { 1u8 } else { 0u8 }),
{
    lemma_set_roi_fields(p, b);
    lemma_ne32(p.index, b, 0, get_ne32(b, 0));
    lemma_ne16(p.quad1, b, 4, get_ne16(b, 4));
    lemma_ne16(p.quad2, b, 6, get_ne16(b, 6));
    lemma_ne16(p.quad3, b, 8, get_ne16(b, 8));
    lemma_ne16(p.quad4, b, 10, get_ne16(b, 10));
    lemma_ne16(p.trans_cycle, b, 14, get_ne16(b, 14));
    lemma_ne16(p.width, b, 16, get_ne16(b, 16));
    lemma_ne16(p.height, b, 18, get_ne16(b, 18));
    lemma_ne32(p.frame_rate, b, 20, get_ne32(b, 20));
    lemma_ne32(p.max_bitrate, b, 26, get_ne32(b, 26));
    lemma_ne16(p.number_of_bins, b, 36, get_ne16(b, 36));
}

/// Settings made with the defaults go out big-endian: stream 1, width 1280,
/// height 800, 30 frames per second in the high half of the rate, and so on.
pub proof fn lemma_default_roi_wire(p: SetCameraROIPayload)
    requires
        roi_defaults(p),
        to_be32_of(p.index, 1),
    ensures
        ne32(p.index) == be32(1),
        roi_tail(p) == seq![1u8, 0u8] + be16(0) + be16(1280) + be16(800) + be32(0x1E0000) + seq![
            0u8,
            0x80u8,
        ] + be32(10) + seq![2u8, 0, 0, 0, 4, 1] + be16(0) + seq![1u8, 50, 50, 50, 50, 0, 1],
{
    lemma_to_be_wire32(p.index, 1);
    lemma_to_be_wire16(p.trans_cycle, 0);
    lemma_to_be_wire16(p.width, 1280);
    lemma_to_be_wire16(p.height, 800);
    lemma_to_be_wire32(p.frame_rate, 0x1E0000);
    lemma_to_be_wire32(p.max_bitrate, 10);
    lemma_to_be_wire16(p.number_of_bins, 0);
    assert(roi_tail(p) =~= seq![1u8, 0u8] + be16(0) + be16(1280) + be16(800) + be32(0x1E0000) + seq![
        0u8,
        0x80u8,
    ] + be32(10) + seq![2u8, 0, 0, 0, 4, 1] + be16(0) + seq![1u8, 50, 50, 50, 50, 0, 1]);
}

} // verus!
