//! Media configuration payload.
use vstd::prelude::*;
use crate::wire::{
    be32, get_be32, holds_at, lemma_be32, lemma_be32_small, lemma_get_be32_digits, push_be32,
    read_be32,
};
use crate::someip::error::{SomeIPError, SomeIPResult};
use crate::someip::method::SomeIPMethod;
use crate::someip::payload::{Payload, PayloadCodec};

verus! {

/// Media configuration; each field travels as a big-endian `u32`.
#[derive(Debug, Clone, Copy, PartialEq, Eq)]
pub struct MediaPayload {
    pub enable_mirror: bool,
    pub enable_flip: bool,
    pub encode: u8,
    pub resolution: u8,
    pub fps: u8,
    pub bitrate: u16,
    pub rc_mode: u8,
    pub i_frame_interval: u8,
}

/// The 32-bit word that stands for a flag.
pub open spec fn flag_word(b: bool) -> u32 {
    if b {
        1
    } else {
        0
    }
}

/// The 32 bytes of a media payload.
pub open spec fn media_bytes(p: MediaPayload) -> Seq<u8> {
    be32(flag_word(p.enable_mirror)) + be32(flag_word(p.enable_flip)) + be32(p.encode as u32)
        + be32(p.resolution as u32) + be32(p.fps as u32) + be32(p.bitrate as u32) + be32(
        p.rc_mode as u32,
    ) + be32(p.i_frame_interval as u32)
}

/// The media payload that the first 32 bytes of `s` encode.
pub open spec fn media_from(s: Seq<u8>) -> MediaPayload {
    MediaPayload {
        enable_mirror: get_be32(s, 0) != 0,
        enable_flip: get_be32(s, 4) != 0,
        encode: get_be32(s, 8) as u8,
        resolution: get_be32(s, 12) as u8,
        fps: get_be32(s, 16) as u8,
        bitrate: get_be32(s, 20) as u16,
        rc_mode: get_be32(s, 24) as u8,
        i_frame_interval: get_be32(s, 28) as u8,
    }
}

/// What decoding a media payload from `s` gives.
pub open spec fn media_decode(s: Seq<u8>) -> SomeIPResult<MediaPayload> {
    if s.len() < 32 {
        Err(SomeIPError::InsufficientBuffer { expected: 32, actual: s.len() as usize })
    } else {
        Ok(media_from(s))
    }
}

impl MediaPayload {
    pub fn new(
        enable_mirror: bool,
        enable_flip: bool,
        encode: u8,
        resolution: u8,
        fps: u8,
        bitrate: u16,
        rc_mode: u8,
        i_frame_interval: u8,
    ) -> (r: MediaPayload)
        ensures
            r == (MediaPayload {
                enable_mirror,
                enable_flip,
                encode,
                resolution,
                fps,
                bitrate,
                rc_mode,
                i_frame_interval,
            }),
    {
        MediaPayload {
            enable_mirror,
            enable_flip,
            encode,
            resolution,
            fps,
            bitrate,
            rc_mode,
            i_frame_interval,
        }
    }

    /// Mirror on, flip off, 30 fps, bitrate 0x1000, I-frame every 30 frames.
    pub fn default_payload() -> (r: MediaPayload)
        ensures
            r == (MediaPayload {
                enable_mirror: true,
                enable_flip: false,
                encode: 0,
                resolution: 0,
                fps: 30,
                bitrate: 0x1000,
                rc_mode: 0,
                i_frame_interval: 30,
            }),
    {
        MediaPayload {
            enable_mirror: true,
            enable_flip: false,
            encode: 0x00,
            resolution: 0x00,
            fps: 30,
            bitrate: 0x1000,
            rc_mode: 0x00,
            i_frame_interval: 30,
        }
    }

    /// The 32 bytes of the payload.
    pub fn to_bytes(&self) -> (r: Vec<u8>)
        ensures
            r@ == media_bytes(*self),
    {
        let mut bytes: Vec<u8> = Vec::new();
        push_be32(&mut bytes, if self.enable_mirror { 1 } else { 0 });
        push_be32(&mut bytes, if self.enable_flip { 1 } else { 0 });
        push_be32(&mut bytes, self.encode as u32);
        push_be32(&mut bytes, self.resolution as u32);
        push_be32(&mut bytes, self.fps as u32);
        push_be32(&mut bytes, self.bitrate as u32);
        push_be32(&mut bytes, self.rc_mode as u32);
        push_be32(&mut bytes, self.i_frame_interval as u32);
        bytes
    }

    /// Decodes the payload from the first 32 bytes of `bytes`.
    pub fn from_bytes(bytes: &[u8]) -> (r: SomeIPResult<MediaPayload>)
        ensures
            r == media_decode(bytes@),
    {
        if bytes.len() < 32 {
            return Err(SomeIPError::insufficient_buffer(32, bytes.len()));
        }
        Ok(MediaPayload {
            enable_mirror: read_be32(bytes, 0) != 0,
            enable_flip: read_be32(bytes, 4) != 0,
            encode: read_be32(bytes, 8) as u8,
            resolution: read_be32(bytes, 12) as u8,
            fps: read_be32(bytes, 16) as u8,
            bitrate: read_be32(bytes, 20) as u16,
            rc_mode: read_be32(bytes, 24) as u8,
            i_frame_interval: read_be32(bytes, 28) as u8,
        })
    }
}

impl Payload for MediaPayload {
    open spec fn wire_method(&self) -> SomeIPMethod {
        SomeIPMethod::SetMedia
    }

    open spec fn encodes_as(&self, bytes: Seq<u8>) -> bool {
        bytes == media_bytes(*self)
    }

    fn method_id(&self) -> (r: SomeIPMethod) {
        SomeIPMethod::SetMedia
    }

    fn encode(&self) -> (r: Vec<u8>) {
        self.to_bytes()
    }
}

impl PayloadCodec for MediaPayload {
    open spec fn decodes_as(data: Seq<u8>, r: SomeIPResult<Self>) -> bool {
        r == media_decode(data)
    }

    fn decode(data: &[u8]) -> (r: SomeIPResult<Self>) {
        Self::from_bytes(data)
    }
}

impl Default for MediaPayload {
    fn default() -> (r: MediaPayload)
        ensures
            r == (MediaPayload {
                enable_mirror: true,
                enable_flip: false,
                encode: 0,
                resolution: 0,
                fps: 30,
                bitrate: 0x1000,
                rc_mode: 0,
                i_frame_interval: 30,
            }),
    {
        Self::default_payload()
    }
}

/// Decoding the bytes of a media payload, followed by anything, gives it back.
pub proof fn lemma_media_roundtrip(p: MediaPayload, rest: Seq<u8>)
    ensures
        media_decode(media_bytes(p) + rest) == Ok::<MediaPayload, SomeIPError>(p),
{
    let s = media_bytes(p) + rest;
    let words = seq![
        flag_word(p.enable_mirror),
        flag_word(p.enable_flip),
        p.encode as u32,
        p.resolution as u32,
        p.fps as u32,
        p.bitrate as u32,
        p.rc_mode as u32,
        p.i_frame_interval as u32,
    ];
    assert forall|j: int| 0 <= j < 8 implies get_be32(s, 4 * j) == #[trigger] words[j] by {
        assert forall|k: int| 0 <= k < 4 implies #[trigger] s[4 * j + k] == be32(words[j])[k] by {
        }
        lemma_be32(words[j], s, 4 * j);
    }
    assert(get_be32(s, 4 * 0int) == words[0]);
    assert(get_be32(s, 4 * 1int) == words[1]);
    assert(get_be32(s, 4 * 2int) == words[2]);
    assert(get_be32(s, 4 * 3int) == words[3]);
    assert(get_be32(s, 4 * 4int) == words[4]);
    assert(get_be32(s, 4 * 5int) == words[5]);
    assert(get_be32(s, 4 * 6int) == words[6]);
    assert(get_be32(s, 4 * 7int) == words[7]);
}

/// The wire layout of a media payload: eight big-endian 32-bit words, in
/// the order mirror, flip, encode, resolution, fps, bitrate, rate-control
/// mode and I-frame interval (a flag is 1 or 0; the bitrate fills the low
/// two bytes of its word, every other field the low byte).
pub proof fn lemma_media_layout(p: MediaPayload)
    ensures
        media_bytes(p) == seq![
            0u8, 0u8, 0u8, if p.enable_mirror { 1u8 } else { 0u8 },
            0u8, 0u8, 0u8, if p.enable_flip { 1u8 } else { 0u8 },
            0u8, 0u8, 0u8, p.encode,
            0u8, 0u8, 0u8, p.resolution,
            0u8, 0u8, 0u8, p.fps,
            0u8, 0u8, (p.bitrate / 256) as u8, (p.bitrate % 256) as u8,
            0u8, 0u8, 0u8, p.rc_mode,
            0u8, 0u8, 0u8, p.i_frame_interval,
        ],
{
    lemma_be32_small(flag_word(p.enable_mirror));
    lemma_be32_small(flag_word(p.enable_flip));
    lemma_be32_small(p.encode as u32);
    lemma_be32_small(p.resolution as u32);
    lemma_be32_small(p.fps as u32);
    lemma_be32_small(p.bitrate as u32);
    lemma_be32_small(p.rc_mode as u32);
    lemma_be32_small(p.i_frame_interval as u32);
    assert(media_bytes(p) =~= seq![
        0u8, 0u8, 0u8, if p.enable_mirror { 1u8 } else { 0u8 },
        0u8, 0u8, 0u8, if p.enable_flip { 1u8 } else { 0u8 },
        0u8, 0u8, 0u8, p.encode,
        0u8, 0u8, 0u8, p.resolution,
        0u8, 0u8, 0u8, p.fps,
        0u8, 0u8, (p.bitrate / 256) as u8, (p.bitrate % 256) as u8,
        0u8, 0u8, 0u8, p.rc_mode,
        0u8, 0u8, 0u8, p.i_frame_interval,
    ]);
}

/// Decoding reads each field from its own word of the first 32 bytes: a
/// flag is set when its word is not zero, the bitrate is the low two bytes
/// of the sixth word, and every other field the low byte of its word
/// (mirror, flip, encode, resolution, fps, bitrate, rate-control mode,
/// I-frame interval, in that order).
pub proof fn lemma_media_fields_read(s: Seq<u8>)
    requires
        s.len() >= 32,
    ensures
        media_decode(s) matches Ok(q) && {
            &&& q.enable_mirror == !(s[0] == 0 && s[1] == 0 && s[2] == 0 && s[3] == 0)
            &&& q.enable_flip == !(s[4] == 0 && s[5] == 0 && s[6] == 0 && s[7] == 0)
            &&& q.encode == s[11]
            &&& q.resolution == s[15]
            &&& q.fps == s[19]
            &&& q.bitrate == s[22] as int * 256 + s[23] as int
            &&& q.rc_mode == s[27]
            &&& q.i_frame_interval == s[31]
        },
{
    lemma_get_be32_digits(s, 0);
    lemma_get_be32_digits(s, 4);
    lemma_get_be32_digits(s, 8);
    lemma_get_be32_digits(s, 12);
    lemma_get_be32_digits(s, 16);
    lemma_get_be32_digits(s, 20);
    lemma_get_be32_digits(s, 24);
    lemma_get_be32_digits(s, 28);
}

} // verus!
