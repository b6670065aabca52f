//! Exclusive camera access payload.
use vstd::prelude::*;
use crate::wire::{lemma_ne32, ne32_at, ne32_read, swap32, u32_from_ne_bytes, u32_to_ne_bytes};
use crate::someip::error::{SomeIPError, SomeIPResult};
use crate::someip::method::SomeIPMethod;
use crate::someip::payload::{Payload, PayloadCodec};

verus! {

/// Request for exclusive use of a camera; the index travels in the
/// machine's byte order.
#[derive(Debug, Clone, Copy, PartialEq, Eq)]
pub struct CamExclusivePayload {
    pub index: u32,
}

/// `r` is a possible result of decoding `s`.
pub open spec fn cam_exclusive_decodes(s: Seq<u8>, r: SomeIPResult<CamExclusivePayload>) -> bool {
    match r {
        Ok(p) => s.len() >= 4 && ne32_read(s, 0, p.index),
        Err(e) => s.len() < 4 && e == (SomeIPError::InsufficientBuffer {
            expected: 4,
            actual: s.len() as usize,
        }),
    }
}

impl CamExclusivePayload {
    pub fn new(index: u32) -> (r: CamExclusivePayload)
        ensures
            r.index == index,
    {
        CamExclusivePayload { index }
    }

    /// Exclusive use of camera 0x0A.
    pub fn default_payload() -> (r: CamExclusivePayload)
        ensures
            r.index == 0x0A,
    {
        CamExclusivePayload { index: 0x0A }
    }

    /// The four bytes of the index in the machine's byte order.
    pub fn to_bytes(&self) -> (r: Vec<u8>)
        ensures
            r@.len() == 4,
            ne32_at(r@, 0, self.index),
    {
        let b = u32_to_ne_bytes(self.index);
        let mut bytes: Vec<u8> = Vec::new();
        bytes.push(b[0]);
        bytes.push(b[1]);
        bytes.push(b[2]);
        bytes.push(b[3]);
        assert(bytes@ =~= b@);
        bytes
    }

    pub fn from_bytes(bytes: &[u8]) -> (r: SomeIPResult<CamExclusivePayload>)
        ensures
            cam_exclusive_decodes(bytes@, r),
    {
        if bytes.len() < 4 {
            return Err(SomeIPError::insufficient_buffer(4, bytes.len()));
        }
        let b: [u8; 4] = [bytes[0], bytes[1], bytes[2], bytes[3]];
        assert(b@ =~= bytes@.subrange(0, 4));
        Ok(CamExclusivePayload { index: u32_from_ne_bytes(b) })
    }
}

impl Payload for CamExclusivePayload {
    open spec fn wire_method(&self) -> SomeIPMethod {
        SomeIPMethod::SetCamExclusive
    }

    open spec fn encodes_as(&self, bytes: Seq<u8>) -> bool {
        bytes.len() == 4 && ne32_at(bytes, 0, self.index)
    }

    fn method_id(&self) -> (r: SomeIPMethod) {
        SomeIPMethod::SetCamExclusive
    }

    fn encode(&self) -> (r: Vec<u8>) {
        self.to_bytes()
    }
}

impl PayloadCodec for CamExclusivePayload {
    open spec fn decodes_as(data: Seq<u8>, r: SomeIPResult<Self>) -> bool {
        cam_exclusive_decodes(data, r)
    }

    fn decode(data: &[u8]) -> (r: SomeIPResult<Self>) {
        Self::from_bytes(data)
    }
}

impl Default for CamExclusivePayload {
    fn default() -> (r: CamExclusivePayload)
        ensures
            r.index == 0x0A,
    {
        Self::default_payload()
    }
}

/// Decoding the bytes of the payload gives the index back, or, where the
/// reading and the writing byte orders differ, the index with its bytes
/// reversed.
pub proof fn lemma_cam_exclusive_roundtrip(
    p: CamExclusivePayload,
    bytes: Seq<u8>,
    r: SomeIPResult<CamExclusivePayload>,
)
    requires
        p.encodes_as(bytes),
        cam_exclusive_decodes(bytes, r),
    ensures
        r is Ok,
        r->Ok_0.index == p.index || r->Ok_0.index == swap32(p.index),
{
    lemma_ne32(p.index, bytes, 0, r->Ok_0.index);
}

} // verus!
