//! A GPU texture that shows RGBA frames: its size, the check of the pixels
//! handed to it and how new pixels reach it. The OpenGL calls are outside
//! this library.
use vstd::prelude::*;
use crate::render::error::RenderError;
use crate::text::{decimal_chars, decimal_text, push_chars, push_str_chars, string_from_chars};

verus! {

/// The bytes of `width` × `height` RGBA pixels.
pub open spec fn rgba_len(width: u32, height: u32) -> int {
    width * height * 4
}

/// The message for pixel data of the wrong length.
pub open spec fn rgba_len_message(expected: nat, actual: nat) -> Seq<char> {
    "像素数据长度不匹配：期望 "@ + decimal_text(expected) + " 字节，实际 "@ + decimal_text(actual)
        + " 字节"@
}

/// How new pixels reach an existing texture.
#[derive(Debug, Clone, Copy, PartialEq, Eq, Structural)]
pub enum TextureUpload {
    /// The size changed: the storage is allocated anew with the pixels.
    Reallocate,
    /// Same size: the pixels replace the old ones in place.
    SubImage,
}

/// How `width` × `height` new pixels reach texture `t`.
pub open spec fn upload_kind(t: Texture, width: u32, height: u32) -> TextureUpload {
    if width != t.width() || height != t.height() {
        TextureUpload::Reallocate
    } else {
        TextureUpload::SubImage
    }
}

/// A texture: the name OpenGL gave it and the size it was made with.
#[derive(Debug, Clone, Copy, PartialEq, Eq)]
pub struct Texture {
    id: u32,
    width: u32,
    height: u32,
}

impl Texture {
    /// Checks that `data` holds exactly `width` × `height` RGBA pixels, as a
    /// texture is made only of such data.
    pub fn check_pixels(data: &[u8], width: u32, height: u32) -> (r: Result<(), RenderError>)
        requires
            rgba_len(width, height) <= u32::MAX,
        ensures
            r is Ok <==> data@.len() == rgba_len(width, height),
            r matches Err(e) ==> e matches RenderError::TextureError(m) && m@ == rgba_len_message(
                rgba_len(width, height) as nat,
                data@.len(),
            ),
    {
        assert(width * height * 4 <= u32::MAX);
        let wh: u32 = width * height;
        let expected: usize = (wh * 4) as usize;
        if data.len() != expected {
            let mut v: Vec<char> = Vec::new();
            push_str_chars(&mut v, "像素数据长度不匹配：期望 ");
            push_chars(&mut v, &decimal_chars(expected as u64));
            push_str_chars(&mut v, " 字节，实际 ");
            push_chars(&mut v, &decimal_chars(data.len() as u64));
            push_str_chars(&mut v, " 字节");
            return Err(RenderError::TextureError(string_from_chars(v)));
        }
        Ok(())
    }

    /// The texture that OpenGL named `id`, made with `width` × `height` pixels.
    pub fn new(id: u32, width: u32, height: u32) -> (r: Texture)
        ensures
            r.id() == id,
            r.width() == width,
            r.height() == height,
    {
        Texture { id, width, height }
    }

    /// How `width` × `height` new pixels are uploaded: anew where the size
    /// differs from the one the texture was made with, in place otherwise.
    /// The texture keeps the size it was made with either way.
    pub fn upload_for(&self, width: u32, height: u32) -> (r: TextureUpload)
        ensures
            r == upload_kind(*self, width, height),
    {
        if width != self.width || height != self.height {
            TextureUpload::Reallocate
        } else {
            TextureUpload::SubImage
        }
    }

    pub closed spec fn spec_width(&self) -> u32 {
        self.width
    }

    pub closed spec fn spec_height(&self) -> u32 {
        self.height
    }

    pub closed spec fn spec_id(&self) -> u32 {
        self.id
    }

    #[verifier::when_used_as_spec(spec_width)]
    pub fn width(&self) -> (r: u32)
        ensures
            r == self.spec_width(),
    {
        self.width
    }

    #[verifier::when_used_as_spec(spec_height)]
    pub fn height(&self) -> (r: u32)
        ensures
            r == self.spec_height(),
    {
        self.height
    }

    #[verifier::when_used_as_spec(spec_id)]
    pub fn id(&self) -> (r: u32)
        ensures
            r == self.spec_id(),
    {
        self.id
    }
}

} // verus!
