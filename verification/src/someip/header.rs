//! The 16-byte SOME/IP header.
use vstd::prelude::*;
use crate::wire::{be16, be32, get_be16, get_be32, holds_at, lemma_be16, lemma_be32, push_be16, push_be32, read_be16, read_be32};
use crate::someip::error::{SomeIPError, SomeIPResult};
use crate::someip::method::{SomeIPMethod, method_code, method_of_code};

verus! {

/// SOME/IP header; every field is held in the machine's order and written
/// big-endian.
#[derive(Debug, Clone, Copy, PartialEq, Eq)]
pub struct SomeIPHeader {
    pub service_id: u16,
    pub method_id: u16,
    /// Payload length plus the eight bytes that follow the length field.
    pub length: u32,
    pub client_id: u16,
    pub session_id: u16,
    pub protocol_version: u8,
    pub interface_version: u8,
    pub message_type: u8,
    pub return_code: u8,
}

/// The 16 bytes of a header on the wire.
pub open spec fn header_bytes(h: SomeIPHeader) -> Seq<u8> {
    be16(h.service_id) + be16(h.method_id) + be32(h.length) + be16(h.client_id) + be16(h.session_id)
        + seq![h.protocol_version, h.interface_version, h.message_type, h.return_code]
}

/// The header that the first 16 bytes of `s` encode.
pub open spec fn header_from(s: Seq<u8>) -> SomeIPHeader {
    SomeIPHeader {
        service_id: get_be16(s, 0),
        method_id: get_be16(s, 2),
        length: get_be32(s, 4),
        client_id: get_be16(s, 8),
        session_id: get_be16(s, 10),
        protocol_version: s[12],
        interface_version: s[13],
        message_type: s[14],
        return_code: s[15],
    }
}

/// What decoding a header from `s` gives.
pub open spec fn header_decode(s: Seq<u8>) -> SomeIPResult<SomeIPHeader> {
    if s.len() < 16 {
        Err(SomeIPError::InsufficientBuffer { expected: 16, actual: s.len() as usize })
    } else {
        Ok(header_from(s))
    }
}

pub const DEFAULT_SERVICE_ID: u16 = 0x433F;

pub const PROTOCOL_VERSION: u8 = 0x01;

impl SomeIPHeader {
    /// A header with the given ids, length 0, protocol and interface version 1.
    pub fn new(
        service_id: u16,
        method_id: u16,
        client_id: u16,
        session_id: u16,
        message_type: u8,
        return_code: u8,
    ) -> (r: SomeIPHeader)
        ensures
            r == (SomeIPHeader {
                service_id,
                method_id,
                length: 0,
                client_id,
                session_id,
                protocol_version: 1,
                interface_version: 1,
                message_type,
                return_code,
            }),
    {
        SomeIPHeader {
            service_id,
            method_id,
            length: 0,
            client_id,
            session_id,
            protocol_version: PROTOCOL_VERSION,
            interface_version: 0x01,
            message_type,
            return_code,
        }
    }

    /// Sets the length field for a payload of `payload_len` bytes.
    pub fn set_length(&mut self, payload_len: u32)
        requires
            payload_len <= u32::MAX - 8,
        ensures
            *final(self) == (SomeIPHeader { length: (payload_len + 8) as u32, ..*old(self) }),
    {
        self.length = payload_len + 8;
    }

    /// The length field.
    pub fn get_length(&self) -> (r: u32)
        ensures
            r == self.length,
    {
        self.length
    }

    /// The 16 big-endian bytes of the header.
    pub fn to_bytes(&self) -> (r: Vec<u8>)
        ensures
            r@ == header_bytes(*self),
    {
        let mut bytes: Vec<u8> = Vec::new();
        push_be16(&mut bytes, self.service_id);
        push_be16(&mut bytes, self.method_id);
        push_be32(&mut bytes, self.length);
        push_be16(&mut bytes, self.client_id);
        push_be16(&mut bytes, self.session_id);
        bytes.push(self.protocol_version);
        bytes.push(self.interface_version);
        bytes.push(self.message_type);
        bytes.push(self.return_code);
        assert(bytes@ =~= header_bytes(*self));
        bytes
    }

    /// Decodes a header from the first 16 bytes of `bytes`.
    pub fn from_bytes(bytes: &[u8]) -> (r: SomeIPResult<SomeIPHeader>)
        ensures
            r == header_decode(bytes@),
    {
        if bytes.len() < 16 {
            return Err(SomeIPError::insufficient_buffer(16, bytes.len()));
        }
        Ok(SomeIPHeader {
            service_id: read_be16(bytes, 0),
            method_id: read_be16(bytes, 2),
            length: read_be32(bytes, 4),
            client_id: read_be16(bytes, 8),
            session_id: read_be16(bytes, 10),
            protocol_version: bytes[12],
            interface_version: bytes[13],
            message_type: bytes[14],
            return_code: bytes[15],
        })
    }

    /// The method that the method id stands for.
    pub fn get_method_id(&self) -> (r: SomeIPMethod)
        ensures
            r == method_of_code(self.method_id),
    {
        SomeIPMethod::from_code(self.method_id)
    }

    /// Sets the method id to that of `method`.
    pub fn set_method_id(&mut self, method: SomeIPMethod)
        ensures
            *final(self) == (SomeIPHeader { method_id: method_code(method), ..*old(self) }),
    {
        self.method_id = method.code();
    }
}

/// Decoding the bytes of a header, followed by anything, gives the header back.
pub proof fn lemma_header_roundtrip(h: SomeIPHeader, rest: Seq<u8>)
    ensures
        header_decode(header_bytes(h) + rest) == Ok::<SomeIPHeader, SomeIPError>(h),
{
    let s = header_bytes(h) + rest;
    assert(holds_at(s, 0, be16(h.service_id)));
    assert(holds_at(s, 2, be16(h.method_id)));
    assert(holds_at(s, 4, be32(h.length)));
    assert(holds_at(s, 8, be16(h.client_id)));
    assert(holds_at(s, 10, be16(h.session_id)));
    lemma_be16(h.service_id, s, 0);
    lemma_be16(h.method_id, s, 2);
    lemma_be32(h.length, s, 4);
    lemma_be16(h.client_id, s, 8);
    lemma_be16(h.session_id, s, 10);
}

/// The wire layout of a header: service id (2 bytes), method id (2), length
/// (4), client id (2) and session id (2), each big-endian, then the
/// protocol version, interface version, message type and return code.
pub proof fn lemma_header_layout(h: SomeIPHeader)
    ensures
        header_bytes(h) == seq![
            (h.service_id / 256) as u8, (h.service_id % 256) as u8,
            (h.method_id / 256) as u8, (h.method_id % 256) as u8,
            (h.length / 16777216) as u8, ((h.length / 65536) % 256) as u8,
            ((h.length / 256) % 256) as u8, (h.length % 256) as u8,
            (h.client_id / 256) as u8, (h.client_id % 256) as u8,
            (h.session_id / 256) as u8, (h.session_id % 256) as u8,
            h.protocol_version, h.interface_version, h.message_type, h.return_code,
        ],
{
    crate::wire::lemma_be16_digits(h.service_id);
    crate::wire::lemma_be16_digits(h.method_id);
    crate::wire::lemma_be32_digits(h.length);
    crate::wire::lemma_be16_digits(h.client_id);
    crate::wire::lemma_be16_digits(h.session_id);
    assert(header_bytes(h) =~= seq![
        (h.service_id / 256) as u8, (h.service_id % 256) as u8,
        (h.method_id / 256) as u8, (h.method_id % 256) as u8,
        (h.length / 16777216) as u8, ((h.length / 65536) % 256) as u8,
        ((h.length / 256) % 256) as u8, (h.length % 256) as u8,
        (h.client_id / 256) as u8, (h.client_id % 256) as u8,
        (h.session_id / 256) as u8, (h.session_id % 256) as u8,
        h.protocol_version, h.interface_version, h.message_type, h.return_code,
    ]);
}

/// Decoding reads each header field from its own place in the first 16
/// bytes, big-endian: service id from bytes 0-1, method id 2-3, length 4-7,
/// client id 8-9, session id 10-11, then one byte each for the protocol
/// version, interface version, message type and return code.
pub proof fn lemma_header_fields_read(s: Seq<u8>)
    requires
        s.len() >= 16,
    ensures
        header_decode(s) matches Ok(h) && {
            &&& h.service_id == s[0] as int * 256 + s[1] as int
            &&& h.method_id == s[2] as int * 256 + s[3] as int
            &&& h.length == s[4] as int * 16777216 + s[5] as int * 65536 + s[6] as int * 256 + s[7] as int
            &&& h.client_id == s[8] as int * 256 + s[9] as int
            &&& h.session_id == s[10] as int * 256 + s[11] as int
            &&& h.protocol_version == s[12]
            &&& h.interface_version == s[13]
            &&& h.message_type == s[14]
            &&& h.return_code == s[15]
        },
{
    crate::wire::lemma_get_be16_digits(s, 0);
    crate::wire::lemma_get_be16_digits(s, 2);
    crate::wire::lemma_get_be32_digits(s, 4);
    crate::wire::lemma_get_be16_digits(s, 8);
    crate::wire::lemma_get_be16_digits(s, 10);
}

} // verus!
