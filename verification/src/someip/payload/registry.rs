//! Decoding payloads by method through a registry.
use vstd::prelude::*;
use crate::wire::{be32, get_be32, push_all, push_be32, read_be32};
use crate::someip::error::{SomeIPError, SomeIPResult};
use std::collections::HashMap;
use crate::someip::method::{SomeIPMethod, lemma_method_code_roundtrip, method_code};
use crate::someip::payload::{EmptyPayload, Payload, PayloadCodec};
use crate::someip::payload::media::MediaPayload;
use crate::someip::payload::subscribe::SubscribePayload;
use crate::someip::payload::network::SetNetworkPayload;
use crate::someip::payload::camera_roi::{GetCameraROIPayload, SetCameraROIPayload};
use crate::someip::payload::cam_exclusive::CamExclusivePayload;
use crate::someip::payload::find_offer::FindOrOfferPayload;
use crate::text::{push_str_chars, string_from_chars};

verus! {

/// Whether `data` is one JSON value (`serde_json::from_slice` accepts it).
pub uninterp spec fn json_is_valid(data: Seq<u8>) -> bool;

/// The text of the error that `serde_json::from_slice` reports for bytes
/// that are not one JSON value.
pub uninterp spec fn json_error_text(data: Seq<u8>) -> Seq<char>;

/// `serde_json::from_slice::<serde_json::Value>`: `None` when `data` is one
/// JSON value, else the text of the parser's error.  Which bytes are JSON,
/// and the error's text, are named, not stated.
#[verifier::external_body]
fn json_syntax_error(data: &[u8]) -> (r: Option<String>)
    ensures
        r.is_none() == json_is_valid(data@),
        r matches Some(t) ==> t@ == json_error_text(data@),
{
    match serde_json::from_slice::<serde_json::Value>(data) {
        Ok(_) => None,
        Err(e) => Some(e.to_string()),
    }
}

/// The decoders that a registry can hold.
#[derive(Debug, Clone, Copy, PartialEq, Eq, Structural)]
pub enum PayloadDecoder {
    Empty,
    Media,
    Subscribe,
    Network,
    SetCameraRoi,
    GetCameraRoi,
    AlgRoi,
    CamExclusive,
    FindOrOffer,
    Config,
}

/// A decoded payload of any kind.  Region lists of the algorithm and JSON
/// configurations are kept as the bytes that carry them.
#[derive(Debug, Clone)]
pub enum AnyPayload {
    Empty(EmptyPayload),
    Media(MediaPayload),
    Subscribe(SubscribePayload),
    Network(SetNetworkPayload),
    SetCameraRoi(SetCameraROIPayload),
    GetCameraRoi(GetCameraROIPayload),
    /// The 192 bytes of the twelve coordinate pairs and the region type.
    AlgRoi { coordinates: Vec<u8>, roi_type: u8 },
    CamExclusive(CamExclusivePayload),
    FindOrOffer(FindOrOfferPayload),
    /// The bytes of one JSON value.
    Config(Vec<u8>),
}

/// `r` is a possible result of decoding `data` with `d`.
pub open spec fn decoder_decodes(d: PayloadDecoder, data: Seq<u8>, r: SomeIPResult<AnyPayload>) -> bool {
    match d {
        PayloadDecoder::Empty => r == Ok::<AnyPayload, SomeIPError>(
            AnyPayload::Empty(EmptyPayload { method: SomeIPMethod::Unknown }),
        ),
        PayloadDecoder::Media => match r {
            Ok(AnyPayload::Media(p)) => MediaPayload::decodes_as(data, Ok(p)),
            Err(e) => MediaPayload::decodes_as(data, Err(e)),
            _ => false,
        },
        PayloadDecoder::Subscribe => match r {
            Ok(AnyPayload::Subscribe(p)) => SubscribePayload::decodes_as(data, Ok(p)),
            Err(e) => SubscribePayload::decodes_as(data, Err(e)),
            _ => false,
        },
        PayloadDecoder::Network => match r {
            Ok(AnyPayload::Network(p)) => SetNetworkPayload::decodes_as(data, Ok(p)),
            Err(e) => SetNetworkPayload::decodes_as(data, Err(e)),
            _ => false,
        },
        PayloadDecoder::SetCameraRoi => match r {
            Ok(AnyPayload::SetCameraRoi(p)) => SetCameraROIPayload::decodes_as(data, Ok(p)),
            Err(e) => SetCameraROIPayload::decodes_as(data, Err(e)),
            _ => false,
        },
        PayloadDecoder::GetCameraRoi => match r {
            Ok(AnyPayload::GetCameraRoi(p)) => GetCameraROIPayload::decodes_as(data, Ok(p)),
            Err(e) => GetCameraROIPayload::decodes_as(data, Err(e)),
            _ => false,
        },
        PayloadDecoder::AlgRoi => match r {
            Ok(AnyPayload::AlgRoi { coordinates, roi_type }) => data.len() >= 196
                && coordinates@ == data.subrange(0, 192) && roi_type == get_be32(data, 192) as u8,
            Err(e) => data.len() < 196 && e == (SomeIPError::InsufficientBuffer {
                expected: 196,
                actual: data.len() as usize,
            }),
            _ => false,
        },
        PayloadDecoder::CamExclusive => match r {
            Ok(AnyPayload::CamExclusive(p)) => CamExclusivePayload::decodes_as(data, Ok(p)),
            Err(e) => CamExclusivePayload::decodes_as(data, Err(e)),
            _ => false,
        },
        PayloadDecoder::FindOrOffer => match r {
            Ok(AnyPayload::FindOrOffer(p)) => FindOrOfferPayload::decodes_as(data, Ok(p)),
            Err(e) => FindOrOfferPayload::decodes_as(data, Err(e)),
            _ => false,
        },
        PayloadDecoder::Config => match r {
            Ok(AnyPayload::Config(bytes)) => json_is_valid(data) && bytes@ == data,
            Err(e) => !json_is_valid(data) && (e matches SomeIPError::CodecError(m) && m@
                == "JSON 解析失败: "@ + json_error_text(data)),
            _ => false,
        },
    }
}

impl PayloadDecoder {
    /// Decodes `data` with this decoder.
    pub fn decode(&self, data: &[u8]) -> (r: SomeIPResult<AnyPayload>)
        ensures
            decoder_decodes(*self, data@, r),
    {
        match self {
            PayloadDecoder::Empty => Ok(AnyPayload::Empty(EmptyPayload { method: SomeIPMethod::Unknown })),
            PayloadDecoder::Media => match MediaPayload::from_bytes(data) {
                Ok(p) => Ok(AnyPayload::Media(p)),
                Err(e) => Err(e),
            },
            PayloadDecoder::Subscribe => match SubscribePayload::from_bytes(data) {
                Ok(p) => Ok(AnyPayload::Subscribe(p)),
                Err(e) => Err(e),
            },
            PayloadDecoder::Network => match SetNetworkPayload::from_bytes(data) {
                Ok(p) => Ok(AnyPayload::Network(p)),
                Err(e) => Err(e),
            },
            PayloadDecoder::SetCameraRoi => match SetCameraROIPayload::from_bytes(data) {
                Ok(p) => Ok(AnyPayload::SetCameraRoi(p)),
                Err(e) => Err(e),
            },
            PayloadDecoder::GetCameraRoi => match GetCameraROIPayload::from_bytes(data) {
                Ok(p) => Ok(AnyPayload::GetCameraRoi(p)),
                Err(e) => Err(e),
            },
            PayloadDecoder::AlgRoi => {
                if data.len() < 196 {
                    return Err(SomeIPError::insufficient_buffer(196, data.len()));
                }
                let coordinates = crate::wire::copy_range(data, 0, 192);
                let roi_type = read_be32(data, 192) as u8;
                let r = Ok(AnyPayload::AlgRoi { coordinates, roi_type });
                assert(decoder_decodes(PayloadDecoder::AlgRoi, data@, r));
                r
            },
            PayloadDecoder::CamExclusive => match CamExclusivePayload::from_bytes(data) {
                Ok(p) => Ok(AnyPayload::CamExclusive(p)),
                Err(e) => Err(e),
            },
            PayloadDecoder::FindOrOffer => match FindOrOfferPayload::from_bytes(data) {
                Ok(p) => Ok(AnyPayload::FindOrOffer(p)),
                Err(e) => Err(e),
            },
            PayloadDecoder::Config => match json_syntax_error(data) {
                None => {
                    let bytes = crate::wire::copy_range(data, 0, data.len());
                    assert(bytes@ =~= data@);
                    Ok(AnyPayload::Config(bytes))
                },
                Some(msg) => {
                    let mut v: Vec<char> = Vec::new();
                    push_str_chars(&mut v, "JSON 解析失败: ");
                    push_str_chars(&mut v, msg.as_str());
                    Err(SomeIPError::CodecError(string_from_chars(v)))
                },
            },
        }
    }
}

impl Payload for AnyPayload {
    open spec fn wire_method(&self) -> SomeIPMethod {
        match self {
            AnyPayload::Empty(p) => p.wire_method(),
            AnyPayload::Media(p) => p.wire_method(),
            AnyPayload::Subscribe(p) => p.wire_method(),
            AnyPayload::Network(p) => p.wire_method(),
            AnyPayload::SetCameraRoi(p) => p.wire_method(),
            AnyPayload::GetCameraRoi(p) => p.wire_method(),
            AnyPayload::AlgRoi { .. } => SomeIPMethod::SetAlgROI,
            AnyPayload::CamExclusive(p) => p.wire_method(),
            AnyPayload::FindOrOffer(p) => p.wire_method(),
            AnyPayload::Config(_) => SomeIPMethod::SetConfig,
        }
    }

    open spec fn encodes_as(&self, bytes: Seq<u8>) -> bool {
        match self {
            AnyPayload::Empty(p) => p.encodes_as(bytes),
            AnyPayload::Media(p) => p.encodes_as(bytes),
            AnyPayload::Subscribe(p) => p.encodes_as(bytes),
            AnyPayload::Network(p) => p.encodes_as(bytes),
            AnyPayload::SetCameraRoi(p) => p.encodes_as(bytes),
            AnyPayload::GetCameraRoi(p) => p.encodes_as(bytes),
            AnyPayload::AlgRoi { coordinates, roi_type } => bytes == coordinates@ + be32(
                *roi_type as u32,
            ),
            AnyPayload::CamExclusive(p) => p.encodes_as(bytes),
            AnyPayload::FindOrOffer(p) => p.encodes_as(bytes),
            AnyPayload::Config(json) => bytes == json@,
        }
    }

    fn method_id(&self) -> (r: SomeIPMethod) {
        match self {
            AnyPayload::Empty(p) => p.method_id(),
            AnyPayload::Media(p) => p.method_id(),
            AnyPayload::Subscribe(p) => p.method_id(),
            AnyPayload::Network(p) => p.method_id(),
            AnyPayload::SetCameraRoi(p) => p.method_id(),
            AnyPayload::GetCameraRoi(p) => p.method_id(),
            AnyPayload::AlgRoi { .. } => SomeIPMethod::SetAlgROI,
            AnyPayload::CamExclusive(p) => p.method_id(),
            AnyPayload::FindOrOffer(p) => p.method_id(),
            AnyPayload::Config(_) => SomeIPMethod::SetConfig,
        }
    }

    fn encode(&self) -> (r: Vec<u8>) {
        match self {
            AnyPayload::Empty(p) => p.encode(),
            AnyPayload::Media(p) => p.encode(),
            AnyPayload::Subscribe(p) => p.encode(),
            AnyPayload::Network(p) => p.encode(),
            AnyPayload::SetCameraRoi(p) => p.encode(),
            AnyPayload::GetCameraRoi(p) => p.encode(),
            AnyPayload::AlgRoi { coordinates, roi_type } => {
                let mut bytes: Vec<u8> = Vec::new();
                push_all(&mut bytes, coordinates.as_slice());
                push_be32(&mut bytes, *roi_type as u32);
                bytes
            },
            AnyPayload::CamExclusive(p) => p.encode(),
            AnyPayload::FindOrOffer(p) => p.encode(),
            AnyPayload::Config(json) => {
                let mut bytes: Vec<u8> = Vec::new();
                push_all(&mut bytes, json.as_slice());
                bytes
            },
        }
    }
}

/// `r` is a possible result of decoding `data` for `m` with a registry
/// holding `decoders`: the registered decoder's result, or an
/// `UnknownMethod` error where none is registered.
pub open spec fn registry_decodes(
    decoders: Map<SomeIPMethod, PayloadDecoder>,
    m: SomeIPMethod,
    data: Seq<u8>,
    r: SomeIPResult<AnyPayload>,
) -> bool {
    if decoders.contains_key(m) {
        decoder_decodes(decoders[m], data, r)
    } else {
        r == Err::<AnyPayload, SomeIPError>(
            SomeIPError::UnknownMethod(method_code(m)),
        )
    }
}

/// Decoders by method, keyed by the method's id; a later registration for
/// a method replaces an earlier one.
#[derive(Debug, Clone)]
pub struct PayloadRegistry {
    decoders: HashMap<u16, PayloadDecoder>,
}

impl View for PayloadRegistry {
    type V = Map<SomeIPMethod, PayloadDecoder>;

    closed spec fn view(&self) -> Map<SomeIPMethod, PayloadDecoder> {
        Map::new(
            |m: SomeIPMethod| self.decoders@.contains_key(method_code(m)),
            |m: SomeIPMethod| self.decoders@[method_code(m)],
        )
    }
}

impl PayloadRegistry {
    /// An empty registry.
    pub fn new() -> (r: PayloadRegistry)
        ensures
            r@ == Map::<SomeIPMethod, PayloadDecoder>::empty(),
    {
        let r = PayloadRegistry { decoders: HashMap::new() };
        assert(r@ =~= Map::<SomeIPMethod, PayloadDecoder>::empty());
        r
    }

    /// Registers `decoder` for `method`, replacing any earlier one.
    pub fn register(&mut self, method: SomeIPMethod, decoder: PayloadDecoder)
        ensures
            final(self)@ == old(self)@.insert(method, decoder),
    {
        broadcast use vstd::std_specs::hash::group_hash_axioms;
        self.decoders.insert(method.code(), decoder);
        proof {
            assert forall|m: SomeIPMethod| method_code(m) == method_code(method) implies m == method by {
                lemma_method_code_roundtrip(m);
                lemma_method_code_roundtrip(method);
            }
            assert(self@ =~= old(self)@.insert(method, decoder));
        }
    }

    /// The decoder registered for `method`, if any.
    pub fn get(&self, method: SomeIPMethod) -> (r: Option<PayloadDecoder>)
        ensures
            r == (if self@.contains_key(method) { Some(self@[method]) } else { None::<PayloadDecoder> }),
    {
        broadcast use vstd::std_specs::hash::group_hash_axioms;
        let code = method.code();
        match self.decoders.get(&code) {
            Some(d) => Some(*d),
            None => None,
        }
    }

    /// Decodes `data` with the decoder registered for `method`; a method
    /// without one is an `UnknownMethod` error.
    pub fn decode(&self, method: SomeIPMethod, data: &[u8]) -> (r: SomeIPResult<AnyPayload>)
        ensures
            registry_decodes(self@, method, data@, r),
    {
        match self.get(method) {
            Some(d) => d.decode(data),
            None => Err(SomeIPError::UnknownMethod(method.code())),
        }
    }
}

impl Default for PayloadRegistry {
    fn default() -> (r: PayloadRegistry)
        ensures
            r@ == Map::<SomeIPMethod, PayloadDecoder>::empty(),
    {
        PayloadRegistry::new()
    }
}

/// The decoders of every payload that the crate knows, by method.
pub open spec fn default_decoders() -> Map<SomeIPMethod, PayloadDecoder> {
    map![
        SomeIPMethod::SetMedia => PayloadDecoder::Media,
        SomeIPMethod::GetMedia => PayloadDecoder::Media,
        SomeIPMethod::Subscribe => PayloadDecoder::Subscribe,
        SomeIPMethod::SetNetwork => PayloadDecoder::Network,
        SomeIPMethod::GetNetwork => PayloadDecoder::Network,
        SomeIPMethod::SetROI => PayloadDecoder::SetCameraRoi,
        SomeIPMethod::GetROI => PayloadDecoder::GetCameraRoi,
        SomeIPMethod::SetAlgROI => PayloadDecoder::AlgRoi,
        SomeIPMethod::GetAlgROI => PayloadDecoder::AlgRoi,
        SomeIPMethod::SetCamExclusive => PayloadDecoder::CamExclusive,
        SomeIPMethod::FindOrOffer => PayloadDecoder::FindOrOffer,
        SomeIPMethod::SetConfig => PayloadDecoder::Config,
        SomeIPMethod::GetConfig => PayloadDecoder::Config,
    ]
}

/// A registry with the decoder of every payload that the crate knows.
pub fn init_default_registry() -> (r: PayloadRegistry)
    ensures
        r@ == default_decoders(),
{
    let mut registry = PayloadRegistry::new();
    registry.register(SomeIPMethod::SetMedia, PayloadDecoder::Media);
    registry.register(SomeIPMethod::GetMedia, PayloadDecoder::Media);
    registry.register(SomeIPMethod::Subscribe, PayloadDecoder::Subscribe);
    registry.register(SomeIPMethod::SetNetwork, PayloadDecoder::Network);
    registry.register(SomeIPMethod::GetNetwork, PayloadDecoder::Network);
    registry.register(SomeIPMethod::SetROI, PayloadDecoder::SetCameraRoi);
    registry.register(SomeIPMethod::GetROI, PayloadDecoder::GetCameraRoi);
    registry.register(SomeIPMethod::SetAlgROI, PayloadDecoder::AlgRoi);
    registry.register(SomeIPMethod::GetAlgROI, PayloadDecoder::AlgRoi);
    registry.register(SomeIPMethod::SetCamExclusive, PayloadDecoder::CamExclusive);
    registry.register(SomeIPMethod::FindOrOffer, PayloadDecoder::FindOrOffer);
    registry.register(SomeIPMethod::SetConfig, PayloadDecoder::Config);
    registry.register(SomeIPMethod::GetConfig, PayloadDecoder::Config);
    assert(registry@ =~= default_decoders());
    registry
}

/// The default registry decodes exactly the thirteen payload methods:
/// decoding for any other method is refused as an unknown method, and
/// decoding for one of them never is.
pub proof fn lemma_default_registry_methods(m: SomeIPMethod, data: Seq<u8>, r: SomeIPResult<AnyPayload>)
    requires
        registry_decodes(default_decoders(), m, data, r),
    ensures
        (r matches Err(SomeIPError::UnknownMethod(_))) <==> !(m == SomeIPMethod::SetMedia || m
            == SomeIPMethod::GetMedia || m == SomeIPMethod::Subscribe || m
            == SomeIPMethod::SetNetwork || m == SomeIPMethod::GetNetwork || m
            == SomeIPMethod::SetROI || m == SomeIPMethod::GetROI || m == SomeIPMethod::SetAlgROI
            || m == SomeIPMethod::GetAlgROI || m == SomeIPMethod::SetCamExclusive || m
            == SomeIPMethod::FindOrOffer || m == SomeIPMethod::SetConfig || m
            == SomeIPMethod::GetConfig),
        r matches Err(SomeIPError::UnknownMethod(c)) ==> c == method_code(m),
{
}

/// A media payload's bytes, decoded through the default registry for
/// `SetMedia`, give back that payload, which encodes to the same bytes.
pub proof fn lemma_default_registry_media_roundtrip(
    p: MediaPayload,
    bytes: Seq<u8>,
    r: SomeIPResult<AnyPayload>,
)
    requires
        p.encodes_as(bytes),
        registry_decodes(default_decoders(), SomeIPMethod::SetMedia, bytes, r),
    ensures
        r == Ok::<AnyPayload, SomeIPError>(AnyPayload::Media(p)),
        r matches Ok(q) && q.encodes_as(bytes),
{
    crate::someip::payload::media::lemma_media_roundtrip(p, Seq::empty());
    assert(bytes + Seq::<u8>::empty() =~= bytes);
}

} // verus!
