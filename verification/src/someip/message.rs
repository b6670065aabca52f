//! Building and parsing whole SOME/IP messages.
use vstd::prelude::*;
use crate::wire::{get_be32, push_all};
use crate::text::{decimal_chars, decimal_text, push_chars, push_str_chars, string_from_chars};
use crate::someip::error::{SomeIPError, SomeIPResult};
use crate::someip::header::{SomeIPHeader, header_bytes, header_decode, header_from, lemma_header_roundtrip};
use crate::someip::method::{SomeIPMethod, method_code};
use crate::someip::payload::{EmptyPayload, Payload};

verus! {

/// A message builder holding the header of the messages it writes.
#[derive(Debug, Clone)]
pub struct SomeIPMessage {
    pub header: SomeIPHeader,
}

/// The message of the error for a length field below 8, which cannot
/// cover the 8 header bytes that it counts.
pub open spec fn short_length_text(length: u32) -> Seq<char> {
    "长度字段小于 8: "@ + decimal_text(length as nat)
}

/// What parsing a whole message gives.
pub enum MessageParse {
    /// The header and the payload bytes that its length field announces.
    Parsed(SomeIPHeader, Seq<u8>),
    /// Fewer bytes than the message needs.
    Short { expected: usize, actual: usize },
    /// A length field below 8.
    BadLength(u32),
}

/// What parsing a whole message from `s` gives: the header and the payload
/// bytes that its length field announces. A length field below 8 is an
/// error; a buffer shorter than the message is one too, naming the bytes
/// needed (`usize::MAX` where that number does not fit).
pub open spec fn message_parse(s: Seq<u8>) -> MessageParse {
    if s.len() < 16 {
        MessageParse::Short { expected: 16, actual: s.len() as usize }
    } else {
        let h = header_from(s);
        if h.length < 8 {
            MessageParse::BadLength(h.length)
        } else {
            let end = 16 + h.length - 8;
            if s.len() < end {
                MessageParse::Short {
                    expected: if end <= usize::MAX {
                        end as usize
                    } else {
                        usize::MAX
                    },
                    actual: s.len() as usize,
                }
            } else {
                MessageParse::Parsed(h, s.subrange(16, end))
            }
        }
    }
}

/// The header after writing a payload of `len` bytes for `m` with `h`.
pub open spec fn header_for(h: SomeIPHeader, m: SomeIPMethod, len: nat) -> SomeIPHeader {
    SomeIPHeader { method_id: method_code(m), length: (len + 8) as u32, ..h }
}

impl SomeIPMessage {
    /// A builder for the given service, client and session; the method is
    /// set by each build.
    pub fn new(
        service_id: u16,
        client_id: u16,
        session_id: u16,
        message_type: u8,
        return_code: u8,
    ) -> (r: SomeIPMessage)
        ensures
            r.header == (SomeIPHeader {
                service_id,
                method_id: 0,
                length: 0,
                client_id,
                session_id,
                protocol_version: 1,
                interface_version: 1,
                message_type,
                return_code,
            }),
    {
        SomeIPMessage {
            header: SomeIPHeader::new(
                service_id,
                0x0000,
                client_id,
                session_id,
                message_type,
                return_code,
            ),
        }
    }

    /// Writes a whole message: the header, set to the payload's method and
    /// length, followed by the payload's bytes.
    pub fn build<P: Payload>(&mut self, payload: &P) -> (r: Vec<u8>)
        requires
            forall|b: Seq<u8>| #[trigger] payload.encodes_as(b) ==> b.len() <= u32::MAX - 8,
        ensures
            r@.len() >= 16,
            payload.encodes_as(r@.subrange(16, r@.len() as int)),
            final(self).header == header_for(
                old(self).header,
                payload.wire_method(),
                (r@.len() - 16) as nat,
            ),
            r@.subrange(0, 16) == header_bytes(final(self).header),
    {
        let payload_bytes = payload.encode();
        self.header.set_method_id(payload.method_id());
        self.header.set_length(payload_bytes.len() as u32);
        let mut msg = self.header.to_bytes();
        push_all(&mut msg, payload_bytes.as_slice());
        assert(msg@.subrange(16, msg@.len() as int) =~= payload_bytes@);
        assert(msg@.subrange(0, 16) =~= header_bytes(self.header));
        msg
    }

    /// Writes a request without payload for `method`.
    pub fn build_get(&mut self, method: SomeIPMethod) -> (r: Vec<u8>)
        ensures
            r@.len() == 16,
            final(self).header == header_for(old(self).header, method, 0),
            r@ == header_bytes(final(self).header),
    {
        let payload = EmptyPayload::new(method);
        let r = self.build(&payload);
        assert(r@.subrange(16, r@.len() as int) == Seq::<u8>::empty());
        assert(r@.subrange(16, r@.len() as int).len() == r@.len() - 16);
        assert(r@.len() == 16);
        assert(r@ =~= r@.subrange(0, 16));
        r
    }

    /// Splits a message into its header and the payload that the header's
    /// length field announces.
    pub fn parse(bytes: &[u8]) -> (r: SomeIPResult<(SomeIPHeader, Vec<u8>)>)
        ensures
            match message_parse(bytes@) {
                MessageParse::Parsed(h, p) => r matches Ok(t) && t.0 == h && t.1@ == p,
                MessageParse::Short { expected, actual } => r == Err::<(SomeIPHeader, Vec<u8>), SomeIPError>(
                    SomeIPError::InsufficientBuffer { expected, actual },
                ),
                MessageParse::BadLength(n) => r matches Err(SomeIPError::ValidationError(m)) && m@
                    == short_length_text(n),
            },
    {
        if bytes.len() < 16 {
            return Err(SomeIPError::insufficient_buffer(16, bytes.len()));
        }
        let header = match SomeIPHeader::from_bytes(bytes) {
            Ok(h) => h,
            Err(e) => {
                return Err(e);
            },
        };
        let length = header.get_length();
        if length < 8 {
            let mut v: Vec<char> = Vec::new();
            push_str_chars(&mut v, "长度字段小于 8: ");
            push_chars(&mut v, &decimal_chars(length as u64));
            return Err(SomeIPError::ValidationError(string_from_chars(v)));
        }
        let payload_len = length - 8;
        let end64: u64 = 16 + payload_len as u64;
        if (bytes.len() as u64) < end64 {
            let expected: usize = if end64 <= usize::MAX as u64 {
                end64 as usize
            } else {
                usize::MAX
            };
            return Err(SomeIPError::insufficient_buffer(expected, bytes.len()));
        }
        let end: usize = end64 as usize;
        let payload = crate::wire::copy_range(bytes, 16, end);
        Ok((header, payload))
    }

    /// The 16 bytes of the builder's header.
    pub fn to_bytes(&self) -> (r: Vec<u8>)
        ensures
            r@ == header_bytes(self.header),
    {
        self.header.to_bytes()
    }
}

/// Parsing a message made of a header and the payload that its length field
/// announces gives the header and the payload back, whatever bytes follow
/// the message in the buffer.
pub proof fn lemma_parse_built_message(h: SomeIPHeader, payload: Seq<u8>, extra: Seq<u8>)
    requires
        h.length == payload.len() + 8,
    ensures
        message_parse(header_bytes(h) + payload + extra) == MessageParse::Parsed(h, payload),
{
    lemma_header_roundtrip(h, payload + extra);
    let s = header_bytes(h) + payload + extra;
    assert(s =~= header_bytes(h) + (payload + extra));
    assert(header_decode(s) == Ok::<SomeIPHeader, SomeIPError>(header_from(s)));
    assert(s.subrange(16, 16 + payload.len() as int) =~= payload);
}

/// A buffer of fewer than 16 bytes holds no message: the error names the 16
/// bytes of a header.
pub proof fn lemma_parse_short_buffer(s: Seq<u8>)
    requires
        s.len() < 16,
    ensures
        message_parse(s) == (MessageParse::Short { expected: 16, actual: s.len() as usize }),
{
}

} // verus!
