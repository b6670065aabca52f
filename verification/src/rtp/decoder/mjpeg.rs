//! MJPEG decoding through the `image` crate.
use vstd::prelude::*;
use vstd::wrapping::i64_specs;
use crate::rtp::decoder::frame::{MediaFrame, MediaPacket, plane_layout};
use crate::rtp::decoder::trait_::{
    DecodeError, DecodeResult, Decoder, codec_debug_name, codec_debug_str,
};
use crate::rtp::decoder::types::{CodecType, MediaType, PixelFormat, pixel_code};
use crate::shared_bytes::{bytes_from_vec, bytes_view};
use crate::text::{push_str_chars, string_from_chars};

verus! {

/// Whether `image::load_from_memory` decodes the bytes.
pub uninterp spec fn image_loads(data: Seq<u8>) -> bool;

/// The message of the error that `image::load_from_memory` reports for
/// bytes that it cannot decode.
pub uninterp spec fn image_error_text(data: Seq<u8>) -> Seq<char>;

/// `DynamicImage::width` of the image decoded from the bytes.
pub uninterp spec fn image_width(data: Seq<u8>) -> u32;

/// `DynamicImage::height` of the image decoded from the bytes.
pub uninterp spec fn image_height(data: Seq<u8>) -> u32;

/// The raw bytes of `DynamicImage::into_rgba8` of the decoded image.
pub uninterp spec fn image_rgba8(data: Seq<u8>) -> Seq<u8>;

/// The raw bytes of `DynamicImage::into_rgb8` of the decoded image.
pub uninterp spec fn image_rgb8(data: Seq<u8>) -> Seq<u8>;

/// The raw bytes of `DynamicImage::into_luma8` of the decoded image.
pub uninterp spec fn image_luma8(data: Seq<u8>) -> Seq<u8>;

/// `image::load_from_memory` on `data` (the format is guessed from its first
/// bytes), then `width`, `height`, `into_rgba8` and `into_raw` of the image:
/// its pixels as red, green, blue and alpha bytes, row by row. An
/// `ImageBuffer` made by the decoder or by the colour conversion holds
/// exactly width × height pixels, so the bytes are four per pixel. On
/// failure, the error's text.
#[verifier::external_body]
fn load_rgba8(data: &[u8]) -> (r: Result<(Vec<u8>, u32, u32), String>)
    ensures
        r is Ok == image_loads(data@),
        r matches Err(m) ==> m@ == image_error_text(data@),
        r matches Ok(t) ==> t.0@ == image_rgba8(data@) && t.1 == image_width(data@) && t.2
            == image_height(data@) && t.0@.len() == t.1 as int * t.2 as int * 4,
{
    match image::load_from_memory(data) {
        Ok(img) => {
            let (w, h) = (img.width(), img.height());
            Ok((img.into_rgba8().into_raw(), w, h))
        },
        Err(e) => Err(e.to_string()),
    }
}

/// As `load_rgba8`, with `into_rgb8`: red, green and blue bytes, three per
/// pixel.
#[verifier::external_body]
fn load_rgb8(data: &[u8]) -> (r: Result<(Vec<u8>, u32, u32), String>)
    ensures
        r is Ok == image_loads(data@),
        r matches Err(m) ==> m@ == image_error_text(data@),
        r matches Ok(t) ==> t.0@ == image_rgb8(data@) && t.1 == image_width(data@) && t.2
            == image_height(data@) && t.0@.len() == t.1 as int * t.2 as int * 3,
{
    match image::load_from_memory(data) {
        Ok(img) => {
            let (w, h) = (img.width(), img.height());
            Ok((img.into_rgb8().into_raw(), w, h))
        },
        Err(e) => Err(e.to_string()),
    }
}

/// As `load_rgba8`, with `into_luma8`: one grey byte per pixel.
#[verifier::external_body]
fn load_luma8(data: &[u8]) -> (r: Result<(Vec<u8>, u32, u32), String>)
    ensures
        r is Ok == image_loads(data@),
        r matches Err(m) ==> m@ == image_error_text(data@),
        r matches Ok(t) ==> t.0@ == image_luma8(data@) && t.1 == image_width(data@) && t.2
            == image_height(data@) && t.0@.len() == t.1 as int * t.2 as int,
{
    match image::load_from_memory(data) {
        Ok(img) => {
            let (w, h) = (img.width(), img.height());
            Ok((img.into_luma8().into_raw(), w, h))
        },
        Err(e) => Err(e.to_string()),
    }
}

/// The pixels with the first and third byte of each `c`-byte pixel swapped:
/// RGB to BGR for `c == 3`, RGBA to BGRA for `c == 4`.
pub open spec fn red_blue_swapped(s: Seq<u8>, c: int) -> Seq<u8> {
    Seq::new(
        s.len(),
        |i: int|
            if i % c == 0 {
                s[i + 2]
            } else if i % c == 2 {
                s[i - 2]
            } else {
                s[i]
            },
    )
}

/// Byte `t` of pixel `k` is byte `t` of the pixel's own `c` bytes.
proof fn lemma_pixel_byte(k: int, c: int, t: int)
    requires
        k >= 0,
        c > 0,
        0 <= t < c,
    ensures
        (k * c + t) % c == t,
        (k * c + t) / c == k,
{
    vstd::arithmetic::div_mod::lemma_mod_multiples_vanish(k, t, c);
    vstd::arithmetic::div_mod::lemma_small_mod(t as nat, c as nat);
    assert(c * k == k * c) by (nonlinear_arith);
    vstd::arithmetic::div_mod::lemma_fundamental_div_mod_converse(k * c + t, c, k, t);
}

/// Swaps the red and blue bytes of each pixel of `c` bytes: RGB to BGR, or
/// RGBA to BGRA.
pub fn swap_red_blue(pixels: &[u8], channels: usize) -> (r: Vec<u8>)
    requires
        channels == 3 || channels == 4,
        pixels@.len() % (channels as nat) == 0,
    ensures
        r@ == red_blue_swapped(pixels@, channels as int),
{
    let c = channels;
    let len = pixels.len();
    let ghost n: int = len as int / c as int;
    proof {
        vstd::arithmetic::div_mod::lemma_fundamental_div_mod(len as int, c as int);
    }
    let mut out: Vec<u8> = Vec::with_capacity(len);
    let mut i: usize = 0;
    let ghost mut k: int = 0;
    while i < len
        invariant
            c == 3 || c == 4,
            len == pixels@.len(),
            len as int == n * c,
            0 <= k <= n,
            i as int == k * c,
            out@.len() == i,
            forall|j: int| 0 <= j < i ==> out@[j] == red_blue_swapped(pixels@, c as int)[j],
        decreases len - i,
    {
        proof {
            assert(k < n) by (nonlinear_arith)
                requires
                    i as int == k * c,
                    (i as int) < n * c,
                    c > 0,
            ;
            assert((k + 1) * c <= n * c) by (nonlinear_arith)
                requires
                    k < n,
                    c > 0,
            ;
            assert((k + 1) * c == k * c + c) by (nonlinear_arith);
        }
        let ghost before = out@;
        out.push(pixels[i + 2]);
        out.push(pixels[i + 1]);
        out.push(pixels[i]);
        if c == 4 {
            out.push(pixels[i + 3]);
        }
        proof {
            assert forall|j: int| 0 <= j < i + c implies out@[j] == red_blue_swapped(
                pixels@,
                c as int,
            )[j] by {
                if j >= i {
                    lemma_pixel_byte(k, c as int, j - i);
                }
            }
            k = k + 1;
        }
        i = i + c;
    }
    assert(out@ =~= red_blue_swapped(pixels@, c as int));
    out
}

/// The bytes and format of the frame that an MJPEG decoder set to `fmt`
/// makes of the image in `data`; formats it cannot give fall back to RGBA.
pub open spec fn mjpeg_output(fmt: PixelFormat, data: Seq<u8>) -> (Seq<u8>, PixelFormat) {
    match fmt {
        PixelFormat::RGB => (image_rgb8(data), PixelFormat::RGB),
        PixelFormat::BGRA => (red_blue_swapped(image_rgba8(data), 4), PixelFormat::BGRA),
        PixelFormat::BGR => (red_blue_swapped(image_rgb8(data), 3), PixelFormat::BGR),
        PixelFormat::GRAY8 => (image_luma8(data), PixelFormat::GRAY8),
        _ => (image_rgba8(data), PixelFormat::RGBA),
    }
}

/// `f` is the frame decoded from `packet` by a decoder set to `fmt`: the
/// image's pixels in that format and size, the packet's time stamps, the
/// difference of the two as duration (wrapping), a key frame.
pub open spec fn is_mjpeg_frame(f: MediaFrame, fmt: PixelFormat, packet: MediaPacket) -> bool {
    let data = bytes_view(packet.data);
    let out = mjpeg_output(fmt, data);
    let w = image_width(data) as i32;
    let h = image_height(data) as i32;
    &&& f.media_type == MediaType::Video
    &&& f.pixel_format == out.1
    &&& bytes_view(f.data) == out.0
    &&& f.width == w
    &&& f.height == h
    &&& f.stride@ == plane_layout(out.1, w, h).0
    &&& f.plane_offset@ == plane_layout(out.1, w, h).1
    &&& f.plane_count == plane_layout(out.1, w, h).2
    &&& f.pts == packet.pts
    &&& f.dts == packet.dts
    &&& f.duration == i64_specs::wrapping_sub(packet.dts, packet.pts)
    &&& f.keyframe
    &&& f.backend is None
}

/// A decoder of MJPEG frames into one pixel format.
pub struct MjpegDecoder {
    output_format: PixelFormat,
    last_width: u32,
    last_height: u32,
}

impl MjpegDecoder {
    /// The pixel format of the frames that the decoder gives.
    pub closed spec fn format_spec(&self) -> PixelFormat {
        self.output_format
    }

    /// The size of the last image decoded, or zeros.
    pub closed spec fn last_size(&self) -> (u32, u32) {
        (self.last_width, self.last_height)
    }

    /// A decoder that gives RGBA frames.
    pub fn new() -> (r: MjpegDecoder)
        ensures
            r.format_spec() == PixelFormat::RGBA,
            r.last_size() == (0u32, 0u32),
    {
        MjpegDecoder { output_format: PixelFormat::RGBA, last_width: 0, last_height: 0 }
    }

    /// A decoder that gives frames in `output_format`.
    pub fn with_output_format(output_format: PixelFormat) -> (r: MjpegDecoder)
        ensures
            r.format_spec() == output_format,
            r.last_size() == (0u32, 0u32),
    {
        MjpegDecoder { output_format, last_width: 0, last_height: 0 }
    }

    pub fn set_output_format(&mut self, format: PixelFormat)
        ensures
            final(self).format_spec() == format,
            final(self).last_size() == old(self).last_size(),
    {
        self.output_format = format;
    }

    pub fn output_format(&self) -> (r: PixelFormat)
        ensures
            r == self.format_spec(),
    {
        self.output_format
    }

    /// Decodes the image in `data` and gives its pixels, size and format as
    /// this decoder's output format asks; formats it cannot give fall back
    /// to RGBA.
    fn convert_format(&self, data: &[u8]) -> (r: DecodeResult<(Vec<u8>, u32, u32, PixelFormat)>)
        ensures
            r is Ok == image_loads(data@),
            r matches Err(e) ==> e matches DecodeError::DecodeFailed(m) && m@
                == "JPEG decode failed: "@ + image_error_text(data@),
            r matches Ok(t) ==> t.0@ == mjpeg_output(self.format_spec(), data@).0 && t.3
                == mjpeg_output(self.format_spec(), data@).1 && t.1 == image_width(data@) && t.2
                == image_height(data@),
    {
        let loaded = match self.output_format {
            PixelFormat::RGB | PixelFormat::BGR => load_rgb8(data),
            PixelFormat::GRAY8 => load_luma8(data),
            _ => load_rgba8(data),
        };
        match loaded {
            Err(e) => {
                let mut v: Vec<char> = Vec::new();
                push_str_chars(&mut v, "JPEG decode failed: ");
                push_str_chars(&mut v, e.as_str());
                Err(DecodeError::DecodeFailed(string_from_chars(v)))
            },
            Ok((pixels, width, height)) => {
                match self.output_format {
                    PixelFormat::RGB => Ok((pixels, width, height, PixelFormat::RGB)),
                    PixelFormat::GRAY8 => Ok((pixels, width, height, PixelFormat::GRAY8)),
                    PixelFormat::BGRA => {
                        proof {
                            assert(pixels@.len() % 4 == 0) by (nonlinear_arith)
                                requires
                                    pixels@.len() == width as int * height as int * 4,
                            ;
                        }
                        let bgra = swap_red_blue(pixels.as_slice(), 4);
                        Ok((bgra, width, height, PixelFormat::BGRA))
                    },
                    PixelFormat::BGR => {
                        proof {
                            assert(pixels@.len() % 3 == 0) by (nonlinear_arith)
                                requires
                                    pixels@.len() == width as int * height as int * 3,
                            ;
                        }
                        let bgr = swap_red_blue(pixels.as_slice(), 3);
                        Ok((bgr, width, height, PixelFormat::BGR))
                    },
                    _ => Ok((pixels, width, height, PixelFormat::RGBA)),
                }
            },
        }
    }
}

impl Default for MjpegDecoder {
    fn default() -> (r: MjpegDecoder)
        ensures
            r.format_spec() == PixelFormat::RGBA,
            r.last_size() == (0u32, 0u32),
    {
        MjpegDecoder::new()
    }
}

/// The state of an MJPEG decoder: the code of its output format and the
/// width and height of the last image.
pub open spec fn mjpeg_state(format: PixelFormat, size: (u32, u32)) -> Seq<int> {
    seq![pixel_code(format) as int, size.0 as int, size.1 as int]
}

impl Decoder for MjpegDecoder {
    open spec fn spec_codec_type(&self) -> CodecType {
        CodecType::MJPEG
    }

    open spec fn spec_name(&self) -> Seq<char> {
        "MjpegDecoder"@
    }

    /// A packet of another codec is refused, one that does not decode is a
    /// decode failure, and a decoded image is one key frame.
    open spec fn spec_decodes(&self, packet: MediaPacket, r: DecodeResult<Option<MediaFrame>>) -> bool {
        &&& packet.codec_type != CodecType::MJPEG ==> (r matches Err(DecodeError::InvalidParameter(m))
            && m@ == "expected MJPEG codec, got "@ + codec_debug_name(packet.codec_type))
        &&& packet.codec_type == CodecType::MJPEG && !image_loads(bytes_view(packet.data)) ==> (r matches Err(
            DecodeError::DecodeFailed(m),
        ) && m@ == "JPEG decode failed: "@ + image_error_text(bytes_view(packet.data)))
        &&& packet.codec_type == CodecType::MJPEG && image_loads(bytes_view(packet.data)) ==> (r matches Ok(
            Some(f),
        ) && is_mjpeg_frame(f, self.format_spec(), packet))
    }

    /// Nothing is held between packets.
    open spec fn spec_flushes(&self, r: DecodeResult<Vec<MediaFrame>>) -> bool {
        r matches Ok(v) && v@.len() == 0
    }

    /// No image has been decoded since the last reset.
    open spec fn spec_is_fresh(&self) -> bool {
        self.last_size() == (0u32, 0u32)
    }

    open spec fn spec_output_format(&self) -> PixelFormat {
        self.format_spec()
    }

    /// The output format's code and the size of the last image.
    open spec fn spec_state(&self) -> Seq<int> {
        mjpeg_state(self.format_spec(), self.last_size())
    }

    /// A decoded image leaves its size; a refused packet leaves the state
    /// as it was.
    open spec fn spec_decodes_to(
        &self,
        packet: MediaPacket,
        r: DecodeResult<Option<MediaFrame>>,
        next: Seq<int>,
    ) -> bool {
        if r is Ok {
            next == mjpeg_state(
                self.format_spec(),
                (image_width(bytes_view(packet.data)), image_height(bytes_view(packet.data))),
            )
        } else {
            next == self.spec_state()
        }
    }

    open spec fn spec_flushes_to(&self, r: DecodeResult<Vec<MediaFrame>>, next: Seq<int>) -> bool {
        next == self.spec_state()
    }

    /// The format stays and the last size is forgotten.
    open spec fn spec_resets_to(&self, next: Seq<int>) -> bool {
        next == mjpeg_state(self.format_spec(), (0u32, 0u32))
    }

    /// Decodes one JPEG image per packet; every frame is a key frame.
    fn decode(&mut self, packet: &MediaPacket) -> (r: DecodeResult<Option<MediaFrame>>)
        ensures
            packet.codec_type != CodecType::MJPEG ==> (r matches Err(
                DecodeError::InvalidParameter(m),
            ) && m@ == "expected MJPEG codec, got "@ + codec_debug_name(packet.codec_type)),
            packet.codec_type == CodecType::MJPEG && !image_loads(bytes_view(packet.data))
                ==> (r matches Err(DecodeError::DecodeFailed(m)) && m@ == "JPEG decode failed: "@
                + image_error_text(bytes_view(packet.data))),
            r is Err ==> *final(self) == *old(self),
            packet.codec_type == CodecType::MJPEG && image_loads(bytes_view(packet.data))
                ==> (r matches Ok(Some(f)) && is_mjpeg_frame(f, old(self).format_spec(), *packet)),
            r is Ok ==> final(self).format_spec() == old(self).format_spec()
                && final(self).last_size() == (
                image_width(bytes_view(packet.data)),
                image_height(bytes_view(packet.data)),
            ),
    {
        if packet.codec_type != CodecType::MJPEG {
            let mut v: Vec<char> = Vec::new();
            push_str_chars(&mut v, "expected MJPEG codec, got ");
            push_str_chars(&mut v, codec_debug_str(packet.codec_type));
            return Err(DecodeError::InvalidParameter(string_from_chars(v)));
        }
        let (pixels, width, height, pixel_format) = match self.convert_format(packet.as_slice()) {
            Ok(t) => t,
            Err(e) => {
                return Err(e);
            },
        };
        self.last_width = width;
        self.last_height = height;
        let frame = MediaFrame::new(
            pixel_format,
            width as i32,
            height as i32,
            bytes_from_vec(pixels),
        ).with_timestamps(packet.pts, packet.dts).with_keyframe(true).with_duration(
            packet.dts.wrapping_sub(packet.pts),
        );
        Ok(Some(frame))
    }

    /// Nothing is held between packets.
    fn flush(&mut self) -> (r: DecodeResult<Vec<MediaFrame>>)
        ensures
            r matches Ok(v) && v@.len() == 0,
            *final(self) == *old(self),
    {
        Ok(Vec::new())
    }

    /// Forgets the size of the last image.
    fn reset(&mut self)
        ensures
            final(self).last_size() == (0u32, 0u32),
            final(self).format_spec() == old(self).format_spec(),
    {
        self.last_width = 0;
        self.last_height = 0;
    }

    fn codec_type(&self) -> (r: CodecType)
        ensures
            r == CodecType::MJPEG,
    {
        CodecType::MJPEG
    }

    fn name(&self) -> (r: &str)
        ensures
            r@ == "MjpegDecoder"@,
    {
        "MjpegDecoder"
    }
}


/// What `ImageReader::into_dimensions` gives for the bytes read as a JPEG
/// image: its width and height from the header, or the error's text.
pub uninterp spec fn jpeg_header_dimensions(data: Seq<u8>) -> Result<(u32, u32), Seq<char>>;

/// `image::ImageReader::with_format(Cursor::new(data), ImageFormat::Jpeg)`
/// then `into_dimensions`: the decoder reads the header only. On failure,
/// the error's text.
#[verifier::external_body]
fn read_jpeg_dimensions(data: &[u8]) -> (r: Result<(u32, u32), String>)
    ensures
        match jpeg_header_dimensions(data@) {
            Ok(d) => r == Ok::<(u32, u32), String>(d),
            Err(m) => r matches Err(e) && e@ == m,
        },
{
    let reader = image::ImageReader::with_format(std::io::Cursor::new(data), image::ImageFormat::Jpeg);
    reader.into_dimensions().map_err(|e| e.to_string())
}

/// The width and height that a JPEG image's header gives, without decoding
/// the image.
pub fn get_jpeg_dimensions(data: &[u8]) -> (r: DecodeResult<(u32, u32)>)
    ensures
        match jpeg_header_dimensions(data@) {
            Ok(d) => r == Ok::<(u32, u32), DecodeError>(d),
            Err(m) => r matches Err(DecodeError::DecodeFailed(e)) && e@
                == "failed to get JPEG dimensions: "@ + m,
        },
{
    match read_jpeg_dimensions(data) {
        Ok(d) => Ok(d),
        Err(m) => {
            let mut v: Vec<char> = Vec::new();
            push_str_chars(&mut v, "failed to get JPEG dimensions: ");
            push_str_chars(&mut v, m.as_str());
            Err(DecodeError::DecodeFailed(string_from_chars(v)))
        },
    }
}

} // verus!
