//! MJPEG streams: JPEG images one after another, each from its
//! start-of-image marker (0xFF 0xD8) to its end-of-image marker (0xFF 0xD9).
use vstd::prelude::*;
use vstd::slice::slice_subrange;
use image::ImageDecoder;
use crate::render::error::RenderError;
use crate::text::{push_str_chars, string_from_chars};

verus! {

/// The marker `0xFF m` starts at `i`.
pub open spec fn marker_at(b: Seq<u8>, i: int, m: u8) -> bool {
    0 <= i && i + 1 < b.len() && b[i] == 0xFF && b[i + 1] == m
}

/// Where the first marker `0xFF m` at or after `i` starts.
pub open spec fn first_marker(b: Seq<u8>, i: int, m: u8) -> Option<int>
    decreases b.len() - i,
{
    if i < 0 || i + 1 >= b.len() {
        None
    } else if marker_at(b, i, m) {
        Some(i)
    } else {
        first_marker(b, i + 1, m)
    }
}

/// What `first_marker` finds is a marker, and none comes before it.
pub proof fn lemma_first_marker(b: Seq<u8>, i: int, m: u8)
    requires
        i >= 0,
    ensures
        first_marker(b, i, m) matches Some(p) ==> i <= p && marker_at(b, p, m) && forall|j: int|
            i <= j < p ==> !marker_at(b, j, m),
        first_marker(b, i, m) is None ==> forall|j: int| i <= j ==> !marker_at(b, j, m),
    decreases b.len() - i,
{
    if i + 1 < b.len() && !marker_at(b, i, m) {
        lemma_first_marker(b, i + 1, m);
    }
}

/// Where the first marker `0xFF m` at or after `start` starts.
fn find_marker(b: &[u8], start: usize, m: u8) -> (r: Option<usize>)
    requires
        start <= b@.len(),
    ensures
        r is None <==> first_marker(b@, start as int, m) is None,
        r matches Some(p) ==> first_marker(b@, start as int, m) == Some(p as int) && p + 1 < b.len(),
{
    let mut i = start;
    while b.len() - i > 1
        invariant
            start <= i <= b@.len(),
            first_marker(b@, i as int, m) == first_marker(b@, start as int, m),
        decreases b@.len() - i,
    {
        if b[i] == 0xFF && b[i + 1] == m {
            return Some(i);
        }
        i = i + 1;
    }
    None
}

/// The range of the first whole JPEG image in `data`: its start and its
/// length, both markers included.
pub fn find_jpeg_frame(data: &[u8]) -> (r: Result<(usize, usize), RenderError>)
    ensures
        first_marker(data@, 0, 0xD8) is None ==> r == Err::<(usize, usize), RenderError>(
            RenderError::MissingSoi,
        ),
        first_marker(data@, 0, 0xD8) matches Some(s) ==> match first_marker(data@, s + 2, 0xD9) {
            None => r == Err::<(usize, usize), RenderError>(RenderError::MissingEoi),
            Some(e) => r == Ok::<(usize, usize), RenderError>((s as usize, (e - s + 2) as usize)),
        },
{
    let soi = match find_marker(data, 0, 0xD8) {
        Some(p) => p,
        None => {
            return Err(RenderError::MissingSoi);
        },
    };
    proof {
        lemma_first_marker(data@, 0, 0xD8);
    }
    let eoi = match find_marker(data, soi + 2, 0xD9) {
        Some(p) => p,
        None => {
            return Err(RenderError::MissingEoi);
        },
    };
    proof {
        lemma_first_marker(data@, soi + 2, 0xD9);
    }
    Ok((soi, eoi - soi + 2))
}

/// A parser that collects stream bytes and hands out whole JPEG images.
pub struct MjpegParser {
    buffer: Vec<u8>,
    offset: usize,
}

/// The next image of a buffer read from `offset`: its range, where there
/// is one.
pub open spec fn next_frame_range(b: Seq<u8>, offset: int) -> Option<(int, int)> {
    match first_marker(b, offset, 0xD8) {
        None => None,
        Some(s) => match first_marker(b, s + 2, 0xD9) {
            None => None,
            Some(e) => Some((s, e + 2)),
        },
    }
}

/// Every image that the parser hands out lies after the read position,
/// starts with a start-of-image marker and ends with an end-of-image
/// marker, with no other start-of-image marker between the read position
/// and its start.
pub proof fn lemma_frame_markers(b: Seq<u8>, offset: int)
    requires
        0 <= offset <= b.len(),
    ensures
        next_frame_range(b, offset) matches Some(r) ==> {
            &&& offset <= r.0 && r.0 + 4 <= r.1 <= b.len()
            &&& b[r.0] == 0xFF && b[r.0 + 1] == 0xD8
            &&& b[r.1 - 2] == 0xFF && b[r.1 - 1] == 0xD9
            &&& forall|j: int| offset <= j < r.0 ==> !marker_at(b, j, 0xD8)
        },
{
    lemma_first_marker(b, offset, 0xD8);
    if let Some(s) = first_marker(b, offset, 0xD8) {
        lemma_first_marker(b, s + 2, 0xD9);
    }
}

impl MjpegParser {
    #[verifier::type_invariant]
    closed spec fn offset_in_buffer(&self) -> bool {
        self.offset <= self.buffer@.len()
    }

    /// The bytes collected so far.
    pub closed spec fn buffered(&self) -> Seq<u8> {
        self.buffer@
    }

    /// Where reading resumes: the end of the last image handed out.
    pub closed spec fn read_position(&self) -> int {
        self.offset as int
    }

    /// An empty parser.
    pub fn new() -> (r: MjpegParser)
        ensures
            r.buffered() == Seq::<u8>::empty(),
            r.read_position() == 0,
    {
        MjpegParser { buffer: Vec::with_capacity(1024 * 1024), offset: 0 }
    }

    /// Appends stream bytes.
    pub fn feed(&mut self, data: &[u8])
        ensures
            final(self).buffered() == old(self).buffered() + data@,
            final(self).read_position() == old(self).read_position(),
    {
        proof {
            use_type_invariant(&*self);
        }
        let mut taken = MjpegParser { buffer: Vec::new(), offset: 0 };
        std::mem::swap(self, &mut taken);
        let MjpegParser { mut buffer, offset } = taken;
        buffer.extend_from_slice(data);
        assert(buffer@ =~= old(self).buffered() + data@);
        *self = MjpegParser { buffer, offset };
    }

    /// The next whole image after the read position, both markers
    /// included, and the read position moved past it; `None`, and nothing
    /// changed, where no whole image follows.
    pub fn next_frame(&mut self) -> (r: Option<&[u8]>)
        ensures
            final(self).buffered() == old(self).buffered(),
            match next_frame_range(old(self).buffered(), old(self).read_position()) {
                None => r is None && final(self).read_position() == old(self).read_position(),
                Some(range) => r matches Some(f) && f@ == old(self).buffered().subrange(
                    range.0,
                    range.1,
                ) && final(self).read_position() == range.1,
            },
    {
        proof {
            use_type_invariant(&*self);
        }
        let soi = match self.find_soi(self.offset) {
            Some(p) => p,
            None => {
                return None;
            },
        };
        proof {
            lemma_first_marker(self.buffer@, self.offset as int, 0xD8);
        }
        let eoi = match self.find_eoi(soi + 2) {
            Some(p) => p,
            None => {
                return None;
            },
        };
        proof {
            lemma_first_marker(self.buffer@, soi + 2, 0xD9);
        }
        let frame_end = eoi + 2;
        self.offset = frame_end;
        Some(slice_subrange(self.buffer.as_slice(), soi, frame_end))
    }

    /// Where the first start-of-image marker at or after `start` starts.
    fn find_soi(&self, start: usize) -> (r: Option<usize>)
        requires
            start <= self.buffered().len(),
        ensures
            r is None <==> first_marker(self.buffered(), start as int, 0xD8) is None,
            r matches Some(p) ==> first_marker(self.buffered(), start as int, 0xD8) == Some(p as int)
                && p + 1 < self.buffer.len(),
    {
        find_marker(self.buffer.as_slice(), start, 0xD8)
    }

    /// Where the first end-of-image marker at or after `start` starts.
    fn find_eoi(&self, start: usize) -> (r: Option<usize>)
        requires
            start <= self.buffered().len(),
        ensures
            r is None <==> first_marker(self.buffered(), start as int, 0xD9) is None,
            r matches Some(p) ==> first_marker(self.buffered(), start as int, 0xD9) == Some(p as int)
                && p + 1 < self.buffer.len(),
    {
        find_marker(self.buffer.as_slice(), start, 0xD9)
    }

    /// Decodes a JPEG image into RGBA pixels, with its width and height.
    pub fn decode_to_rgba(&self, jpeg_data: &[u8]) -> (r: Result<(Vec<u8>, u32, u32), RenderError>)
        ensures
            jpeg_decoded_as(jpeg_data@, match r {
                Ok(t) => Ok(DecodedFrame { rgba: t.0, width: t.1, height: t.2 }),
                Err(e) => Err(e),
            }),
    {
        match decode_jpeg_to_rgba(jpeg_data) {
            Ok(f) => Ok((f.rgba, f.width, f.height)),
            Err(e) => Err(e),
        }
    }

    /// Drops all collected bytes.
    pub fn reset(&mut self)
        ensures
            final(self).buffered() == Seq::<u8>::empty(),
            final(self).read_position() == 0,
    {
        let mut taken = MjpegParser { buffer: Vec::new(), offset: 0 };
        std::mem::swap(self, &mut taken);
        let MjpegParser { mut buffer, offset: _ } = taken;
        buffer.clear();
        *self = MjpegParser { buffer, offset: 0 };
    }

    /// How many collected bytes lie after the read position.
    pub fn buffered_len(&self) -> (r: usize)
        ensures
            r == self.buffered().len() - self.read_position(),
    {
        proof {
            use_type_invariant(self);
        }
        self.buffer.len() - self.offset
    }
}

impl Default for MjpegParser {
    fn default() -> (r: MjpegParser)
        ensures
            r.buffered() == Seq::<u8>::empty(),
            r.read_position() == 0,
    {
        MjpegParser::new()
    }
}

/// A decoded image: RGBA pixels, row by row.
#[derive(Clone, Debug)]
pub struct DecodedFrame {
    pub rgba: Vec<u8>,
    pub width: u32,
    pub height: u32,
}

/// Whether the JPEG decoder of the `image` crate decodes the bytes.
pub uninterp spec fn jpeg_decodes(data: Seq<u8>) -> bool;

/// The message of the decoder's error for bytes that it cannot decode.
pub uninterp spec fn jpeg_error_text(data: Seq<u8>) -> Seq<char>;

/// The samples that the decoder reads out of the image: three bytes per
/// pixel for colour images.
pub uninterp spec fn jpeg_samples(data: Seq<u8>) -> Seq<u8>;

/// The width of the image, as the decoder reports it.
pub uninterp spec fn jpeg_width(data: Seq<u8>) -> u32;

/// The height of the image, as the decoder reports it.
pub uninterp spec fn jpeg_height(data: Seq<u8>) -> u32;

/// `JpegDecoder::new` over the bytes, then its `dimensions`, `total_bytes`
/// and `read_image` into a buffer of that size: the image's samples, width
/// and height, or the text of the error of either step.
#[verifier::external_body]
fn jpeg_decode(data: &[u8]) -> (r: Result<(Vec<u8>, u32, u32), String>)
    ensures
        r is Ok == jpeg_decodes(data@),
        r matches Err(m) ==> m@ == jpeg_error_text(data@),
        r matches Ok(t) ==> t.0@ == jpeg_samples(data@) && t.1 == jpeg_width(data@) && t.2
            == jpeg_height(data@),
{
    let decoder = match image::codecs::jpeg::JpegDecoder::new(std::io::Cursor::new(data)) {
        Ok(d) => d,
        Err(e) => return Err(e.to_string()),
    };
    let (width, height) = decoder.dimensions();
    let mut samples = vec![0u8; decoder.total_bytes() as usize];
    match decoder.read_image(&mut samples) {
        Ok(()) => Ok((samples, width, height)),
        Err(e) => Err(e.to_string()),
    }
}

/// RGB samples with an opaque alpha byte after each pixel.
pub open spec fn rgb_to_rgba(rgb: Seq<u8>) -> Seq<u8> {
    Seq::new(
        (rgb.len() / 3) * 4,
        |i: int|
            if i % 4 == 3 {
                255u8
            } else {
                rgb[(i / 4) * 3 + i % 4]
            },
    )
}

/// Pixel `k`, byte `t` of a layout of `c` bytes per pixel.
proof fn lemma_pixel_index(k: int, c: int, t: int)
    requires
        k >= 0,
        c > 0,
        0 <= t < c,
    ensures
        (k * c + t) % c == t,
        (k * c + t) / c == k,
{
    vstd::arithmetic::div_mod::lemma_mod_multiples_vanish(k, t, c);
    vstd::arithmetic::div_mod::lemma_small_mod(t as nat, c as nat);
    assert(c * k == k * c) by (nonlinear_arith);
    vstd::arithmetic::div_mod::lemma_fundamental_div_mod_converse(k * c + t, c, k, t);
}

/// The first `pixel_count` RGB pixels of `rgb_data` as RGBA, fully opaque.
pub fn rgb3_to_rgba(rgb_data: &[u8], pixel_count: usize) -> (r: Vec<u8>)
    requires
        pixel_count * 3 <= rgb_data@.len(),
    ensures
        r@ == rgb_to_rgba(rgb_data@.subrange(0, pixel_count * 3)),
{
    let ghost src = rgb_data@.subrange(0, pixel_count * 3);
    let len = rgb_data.len();
    let mut rgba: Vec<u8> = Vec::new();
    let mut k: usize = 0;
    proof {
        lemma_pixel_index(pixel_count as int, 3, 0);
    }
    while k < pixel_count
        invariant
            k <= pixel_count,
            pixel_count * 3 <= rgb_data@.len(),
            len == rgb_data@.len(),
            src == rgb_data@.subrange(0, pixel_count * 3),
            src.len() / 3 == pixel_count,
            rgba@.len() == k * 4,
            forall|j: int| 0 <= j < k * 4 ==> rgba@[j] == rgb_to_rgba(src)[j],
        decreases pixel_count - k,
    {
        assert(k * 3 + 3 <= pixel_count * 3) by (nonlinear_arith)
            requires
                k < pixel_count,
        ;
        assert(k * 3 + 3 <= len);
        let i = k * 3;
        let ghost before = rgba@;
        rgba.push(rgb_data[i]);
        rgba.push(rgb_data[i + 1]);
        rgba.push(rgb_data[i + 2]);
        rgba.push(255);
        proof {
            assert forall|j: int| 0 <= j < (k + 1) * 4 implies rgba@[j] == rgb_to_rgba(src)[j] by {
                if j >= k * 4 {
                    lemma_pixel_index(k as int, 4, j - k * 4);
                }
            }
        }
        k = k + 1;
    }
    assert(rgba@ =~= rgb_to_rgba(src));
    rgba
}

/// The decoded image has three samples for each of its pixels, and its
/// pixel count fits in 32 bits.
pub open spec fn samples_cover_pixels(data: Seq<u8>) -> bool {
    let n = jpeg_width(data) as int * jpeg_height(data) as int;
    n <= u32::MAX && n * 3 <= jpeg_samples(data).len()
}

/// The result of decoding `data` into RGBA: the decoder's error, an error
/// for an image whose samples are not three per pixel, or the pixels.
pub open spec fn jpeg_decoded_as(data: Seq<u8>, r: Result<DecodedFrame, RenderError>) -> bool {
    if !jpeg_decodes(data) {
        r matches Err(RenderError::JpegDecode(m)) && m@ == jpeg_error_text(data)
    } else if !samples_cover_pixels(data) {
        r matches Err(RenderError::ImageConvert(_))
    } else {
        r matches Ok(f) && f.width == jpeg_width(data) && f.height == jpeg_height(data) && f.rgba@
            == rgb_to_rgba(
            jpeg_samples(data).subrange(0, jpeg_width(data) as int * jpeg_height(data) as int * 3),
        )
    }
}

/// Decodes a JPEG image into RGBA pixels. An image whose samples are not
/// three per pixel (a grey-scale one) is reported as a conversion error.
pub fn decode_jpeg_to_rgba(jpeg_data: &[u8]) -> (r: Result<DecodedFrame, RenderError>)
    ensures
        jpeg_decoded_as(jpeg_data@, r),
{
    match jpeg_decode(jpeg_data) {
        Err(m) => Err(RenderError::JpegDecode(m)),
        Ok((samples, width, height)) => {
            assert(width as u64 * height as u64 <= u64::MAX) by (nonlinear_arith)
                requires
                    width <= u32::MAX,
                    height <= u32::MAX,
            ;
            let n: u64 = width as u64 * height as u64;
            if n > u32::MAX as u64 || n * 3 > samples.len() as u64 {
                let mut v: Vec<char> = Vec::new();
                push_str_chars(&mut v, "样本数少于每像素三个");
                return Err(RenderError::ImageConvert(string_from_chars(v)));
            }
            let rgba = rgb3_to_rgba(samples.as_slice(), n as usize);
            Ok(DecodedFrame { rgba, width, height })
        },
    }
}

} // verus!
