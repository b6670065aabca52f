//! SOME/IP payloads and the decoder registry.
use vstd::prelude::*;
use crate::someip::error::{SomeIPError, SomeIPResult};
use crate::someip::method::SomeIPMethod;

pub mod media;
pub mod subscribe;
pub mod cam_exclusive;
pub mod find_offer;
pub mod network;
pub mod camera_roi;
pub mod registry;

pub use media::MediaPayload;
pub use subscribe::SubscribePayload;
pub use cam_exclusive::CamExclusivePayload;
pub use find_offer::FindOrOfferPayload;
pub use network::SetNetworkPayload;
pub use camera_roi::{GetCameraROIPayload, SetCameraROIPayload};
pub use registry::{AnyPayload, PayloadDecoder, PayloadRegistry, init_default_registry};

verus! {

/// A payload that can be written after a SOME/IP header.
pub trait Payload {
    /// The method that the payload belongs to.
    spec fn wire_method(&self) -> SomeIPMethod;

    /// Whether `bytes` is an encoding of the payload.
    spec fn encodes_as(&self, bytes: Seq<u8>) -> bool;

    /// The method that the payload belongs to.
    fn method_id(&self) -> (r: SomeIPMethod)
        ensures
            r == self.wire_method(),
    ;

    /// The bytes of the payload.
    fn encode(&self) -> (r: Vec<u8>)
        ensures
            self.encodes_as(r@),
    ;
}

/// A payload that can also be read back from bytes.
pub trait PayloadCodec: Payload + Sized {
    /// Whether `r` is a possible result of decoding `data`.
    spec fn decodes_as(data: Seq<u8>, r: SomeIPResult<Self>) -> bool;

    /// Decodes a payload from `data`.
    fn decode(data: &[u8]) -> (r: SomeIPResult<Self>)
        ensures
            Self::decodes_as(data@, r),
    ;
}

/// The empty payload of a request that carries none.
#[derive(Debug, Clone, Copy, PartialEq, Eq)]
pub struct EmptyPayload {
    pub method: SomeIPMethod,
}

impl EmptyPayload {
    pub fn new(method: SomeIPMethod) -> (r: EmptyPayload)
        ensures
            r.method == method,
    {
        EmptyPayload { method }
    }
}

impl Payload for EmptyPayload {
    open spec fn wire_method(&self) -> SomeIPMethod {
        self.method
    }

    open spec fn encodes_as(&self, bytes: Seq<u8>) -> bool {
        bytes == Seq::<u8>::empty()
    }

    fn method_id(&self) -> (r: SomeIPMethod) {
        self.method
    }

    fn encode(&self) -> (r: Vec<u8>) {
        Vec::new()
    }
}

impl PayloadCodec for EmptyPayload {
    open spec fn decodes_as(data: Seq<u8>, r: SomeIPResult<Self>) -> bool {
        r == Ok::<EmptyPayload, SomeIPError>(EmptyPayload { method: SomeIPMethod::Unknown })
    }

    fn decode(_data: &[u8]) -> (r: SomeIPResult<Self>) {
        Ok(EmptyPayload { method: SomeIPMethod::Unknown })
    }
}

impl Default for EmptyPayload {
    fn default() -> (r: EmptyPayload)
        ensures
            r.method == SomeIPMethod::Unknown,
    {
        EmptyPayload { method: SomeIPMethod::Unknown }
    }
}

} // verus!
