//! Event subscription payload.
use vstd::prelude::*;
use crate::wire::{be32, get_be32, lemma_be32, push_be32, read_be32};
use crate::someip::error::{SomeIPError, SomeIPResult};
use crate::someip::method::SomeIPMethod;
use crate::someip::payload::{Payload, PayloadCodec};

verus! {

/// Subscription to the event with the given index; four bytes on the wire.
#[derive(Debug, Clone, Copy, PartialEq, Eq)]
pub struct SubscribePayload {
    pub index: u8,
}

/// The four bytes of a subscription.
pub open spec fn subscribe_bytes(p: SubscribePayload) -> Seq<u8> {
    be32(p.index as u32)
}

/// What decoding a subscription from `s` gives.
pub open spec fn subscribe_decode(s: Seq<u8>) -> SomeIPResult<SubscribePayload> {
    if s.len() < 4 {
        Err(SomeIPError::InsufficientBuffer { expected: 4, actual: s.len() as usize })
    } else {
        Ok(SubscribePayload { index: get_be32(s, 0) as u8 })
    }
}

impl SubscribePayload {
    pub fn new(index: u8) -> (r: SubscribePayload)
        ensures
            r.index == index,
    {
        SubscribePayload { index }
    }

    /// Subscription to event 1.
    pub fn default_payload() -> (r: SubscribePayload)
        ensures
            r.index == 1,
    {
        SubscribePayload { index: 0x01 }
    }

    pub fn to_bytes(&self) -> (r: Vec<u8>)
        ensures
            r@ == subscribe_bytes(*self),
    {
        let mut bytes: Vec<u8> = Vec::new();
        push_be32(&mut bytes, self.index as u32);
        bytes
    }

    pub fn from_bytes(bytes: &[u8]) -> (r: SomeIPResult<SubscribePayload>)
        ensures
            r == subscribe_decode(bytes@),
    {
        if bytes.len() < 4 {
            return Err(SomeIPError::insufficient_buffer(4, bytes.len()));
        }
        Ok(SubscribePayload { index: read_be32(bytes, 0) as u8 })
    }
}

impl Payload for SubscribePayload {
    open spec fn wire_method(&self) -> SomeIPMethod {
        SomeIPMethod::Subscribe
    }

    open spec fn encodes_as(&self, bytes: Seq<u8>) -> bool {
        bytes == subscribe_bytes(*self)
    }

    fn method_id(&self) -> (r: SomeIPMethod) {
        SomeIPMethod::Subscribe
    }

    fn encode(&self) -> (r: Vec<u8>) {
        self.to_bytes()
    }
}

impl PayloadCodec for SubscribePayload {
    open spec fn decodes_as(data: Seq<u8>, r: SomeIPResult<Self>) -> bool {
        r == subscribe_decode(data)
    }

    fn decode(data: &[u8]) -> (r: SomeIPResult<Self>) {
        Self::from_bytes(data)
    }
}

impl Default for SubscribePayload {
    fn default() -> (r: SubscribePayload)
        ensures
            r.index == 1,
    {
        Self::default_payload()
    }
}

/// Decoding the bytes of a subscription gives it back.
pub proof fn lemma_subscribe_roundtrip(p: SubscribePayload, rest: Seq<u8>)
    ensures
        subscribe_decode(subscribe_bytes(p) + rest) == Ok::<SubscribePayload, SomeIPError>(p),
{
    let s = subscribe_bytes(p) + rest;
    assert forall|k: int| 0 <= k < 4 implies #[trigger] s[0 + k] == be32(p.index as u32)[k] by {}
    lemma_be32(p.index as u32, s, 0);
}

/// A subscription goes out as one big-endian 32-bit word holding the
/// event index in its low byte, and decoding reads the index from that
/// byte (the fourth).
pub proof fn lemma_subscribe_layout(p: SubscribePayload, s: Seq<u8>)
    requires
        s.len() >= 4,
    ensures
        subscribe_bytes(p) == seq![0u8, 0u8, 0u8, p.index],
        subscribe_decode(s) matches Ok(q) && q.index == s[3],
{
    crate::wire::lemma_be32_small(p.index as u32);
    crate::wire::lemma_get_be32_digits(s, 0);
}

} // verus!
