//! The decisions of the render loop: which of the received frames is shown,
//! what happens to the texture once a frame is decoded, what is drawn and
//! whether the loop idles. The window, the frame channel, the JPEG decoding
//! call and the OpenGL calls are made around these decisions, outside this
//! library.
use vstd::prelude::*;
use crate::render::texture::{Texture, TextureUpload, upload_kind};

verus! {

/// The last of the frames received since the previous turn of the loop;
/// the older ones are dropped without being decoded.
pub fn latest_frame(pending: Vec<Vec<u8>>) -> (r: Option<Vec<u8>>)
    ensures
        pending@.len() == 0 ==> r is None,
        pending@.len() > 0 ==> r == Some(pending@.last()),
{
    let mut pending = pending;
    pending.pop()
}

/// What is done with the texture once a frame is decoded.
#[derive(Debug, Clone, Copy, PartialEq, Eq, Structural)]
pub enum TextureStep {
    /// No texture yet: one is made from the pixels.
    Create,
    /// The pixels go into the existing texture this way.
    Upload(TextureUpload),
}

/// What the render loop carries from one turn to the next.
pub struct RenderLoop {
    has_frame: bool,
    texture: Option<Texture>,
}

impl RenderLoop {
    /// Whether a frame has been decoded since the loop began.
    pub closed spec fn has_shown_frame(&self) -> bool {
        self.has_frame
    }

    /// The texture, once one was made.
    pub closed spec fn current_texture(&self) -> Option<Texture> {
        self.texture
    }

    /// A loop that has shown nothing and has no texture.
    pub fn new() -> (r: RenderLoop)
        ensures
            !r.has_shown_frame(),
            r.current_texture() is None,
    {
        RenderLoop { has_frame: false, texture: None }
    }

    /// A frame of `width` × `height` pixels was decoded: a texture is made
    /// where there is none, else the pixels are uploaded into it.
    pub fn on_frame_decoded(&mut self, width: u32, height: u32) -> (r: TextureStep)
        ensures
            final(self).has_shown_frame(),
            final(self).current_texture() == old(self).current_texture(),
            r == match old(self).current_texture() {
                Some(t) => TextureStep::Upload(upload_kind(t, width, height)),
                None => TextureStep::Create,
            },
    {
        self.has_frame = true;
        match &self.texture {
            Some(t) => TextureStep::Upload(t.upload_for(width, height)),
            None => TextureStep::Create,
        }
    }

    /// The outcome of making a texture: the texture, or `None` where it
    /// could not be made. A texture that already exists is kept.
    pub fn on_texture_made(&mut self, made: Option<Texture>)
        ensures
            final(self).has_shown_frame() == old(self).has_shown_frame(),
            final(self).current_texture() == (if old(self).current_texture() is None {
                made
            } else {
                old(self).current_texture()
            }),
    {
        if self.texture.is_none() {
            self.texture = made;
        }
    }

    /// Whether the texture is bound for drawing: a frame was shown and the
    /// texture exists. The quad is drawn either way.
    pub fn binds_texture(&self) -> (r: bool)
        ensures
            r == (self.has_shown_frame() && self.current_texture() is Some),
    {
        self.has_frame && self.texture.is_some()
    }

    /// Whether the loop sleeps a frame's time after drawing: no frame has
    /// been shown yet.
    pub fn idles(&self) -> (r: bool)
        ensures
            r == !self.has_shown_frame(),
    {
        !self.has_frame
    }

    /// The texture, once one was made.
    pub fn texture(&self) -> (r: Option<Texture>)
        ensures
            r == self.current_texture(),
    {
        self.texture
    }
}

} // verus!
