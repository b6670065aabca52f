//! Service find/offer payload.
use vstd::prelude::*;
use crate::wire::{
    be32, get_be32, holds_at, lemma_be32, lemma_ne32, ne32_at, ne32_read, push_all, push_be32,
    read_be32, swap32, to_be16_of, to_be32_of, u32_from_ne_bytes, u32_to_be, u32_to_ne_bytes,
};
use crate::someip::entry::{SomeIPEntry, entry_at, entry_bytes, lemma_entry_at};
use crate::someip::error::{SomeIPError, SomeIPResult};
use crate::someip::method::SomeIPMethod;
use crate::someip::payload::{Payload, PayloadCodec};

verus! {

/// Find or offer a service: flag, three reserved bytes, the entry length,
/// one entry and the options length; 28 bytes on the wire.
#[derive(Debug, Clone, PartialEq, Eq)]
pub struct FindOrOfferPayload {
    pub flag: u8,
    pub reserved: [u8; 3],
    pub entry_len: u32,
    pub entry: SomeIPEntry,
    /// Written in the machine's byte order.
    pub options_len: u32,
}

/// `bytes` holds the encoding of `p`: bytes 24..28 hold the options length in
/// one of the two byte orders.
pub open spec fn find_offer_encodes(p: FindOrOfferPayload, bytes: Seq<u8>) -> bool {
    &&& bytes.len() == 28
    &&& bytes[0] == p.flag
    &&& bytes.subrange(1, 4) == p.reserved@
    &&& bytes.subrange(4, 8) == be32(p.entry_len)
    &&& bytes.subrange(8, 24) == entry_bytes(p.entry)
    &&& ne32_at(bytes, 24, p.options_len)
}

/// `p` is what the first 28 bytes of `s` decode to.
pub open spec fn find_offer_matches(s: Seq<u8>, p: FindOrOfferPayload) -> bool {
    &&& s.len() >= 28
    &&& p.flag == s[0]
    &&& p.reserved@ == s.subrange(1, 4)
    &&& p.entry_len == get_be32(s, 4)
    &&& p.entry == entry_at(s, 8)
    &&& ne32_read(s, 24, p.options_len)
}

/// `r` is a possible result of decoding `s`.
pub open spec fn find_offer_decodes(s: Seq<u8>, r: SomeIPResult<FindOrOfferPayload>) -> bool {
    match r {
        Ok(p) => find_offer_matches(s, p),
        Err(e) => s.len() < 28 && e == (SomeIPError::InsufficientBuffer {
            expected: 28,
            actual: s.len() as usize,
        }),
    }
}

impl FindOrOfferPayload {
    /// A payload with the given fields; both lengths pass through `to_be`.
    pub fn new(
        flag: u8,
        reserved: [u8; 3],
        entry_len: u32,
        entry: SomeIPEntry,
        options_len: u32,
    ) -> (r: FindOrOfferPayload)
        ensures
            r.flag == flag && r.reserved == reserved && r.entry == entry,
            to_be32_of(r.entry_len, entry_len),
            to_be32_of(r.options_len, options_len),
    {
        FindOrOfferPayload {
            flag,
            reserved,
            entry_len: u32_to_be(entry_len),
            entry,
            options_len: u32_to_be(options_len),
        }
    }

    /// Flag 0xC0, the default entry, entry length 16 and options length 0,
    /// both lengths passed through `to_be`.
    pub fn default_payload() -> (r: FindOrOfferPayload)
        ensures
            r.flag == 0xC0,
            r.reserved@ == seq![0u8, 0u8, 0u8],
            to_be32_of(r.entry_len, 16),
            to_be32_of(r.options_len, 0),
            r.entry.entry_type == 0 && r.entry.index1 == 0 && r.entry.index2 == 0
                && r.entry.num_opt == 0,
            to_be16_of(r.entry.service_id, 0x433F),
            to_be16_of(r.entry.instance_id, 0xFFFF),
            to_be32_of(r.entry.major_version_and_ttl, 0xFF00FFFF),
            to_be32_of(r.entry.minor_version, 0xFFFFFFFF),
    {
        assert(0x80u8 | 0x40u8 == 0xC0u8) by (bit_vector);
        FindOrOfferPayload {
            flag: 0x80 | 0x40,
            reserved: [0x00, 0x00, 0x00],
            entry_len: u32_to_be(16),
            entry: SomeIPEntry::default_entry(),
            options_len: u32_to_be(0),
        }
    }

    /// The 28 bytes of the payload.
    pub fn to_bytes(&self) -> (r: Vec<u8>)
        ensures
            find_offer_encodes(*self, r@),
    {
        let mut bytes: Vec<u8> = Vec::new();
        bytes.push(self.flag);
        push_all(&mut bytes, self.reserved.as_slice());
        push_be32(&mut bytes, self.entry_len);
        let e = self.entry.to_bytes();
        push_all(&mut bytes, e.as_slice());
        let o = u32_to_ne_bytes(self.options_len);
        push_all(&mut bytes, o.as_slice());
        assert(bytes@.subrange(1, 4) =~= self.reserved@);
        assert(bytes@.subrange(4, 8) =~= be32(self.entry_len));
        assert(bytes@.subrange(8, 24) =~= entry_bytes(self.entry));
        assert(bytes@.subrange(24, 28) =~= o@);
        assert forall|k: int| 0 <= k < 4 implies #[trigger] bytes@[24 + k] == o@[k] by {
            assert(bytes@.subrange(24, 28)[k] == o@[k]);
        }
        bytes
    }

    pub fn from_bytes(bytes: &[u8]) -> (r: SomeIPResult<FindOrOfferPayload>)
        ensures
            find_offer_decodes(bytes@, r),
    {
        if bytes.len() < 28 {
            return Err(SomeIPError::insufficient_buffer(28, bytes.len()));
        }
        let flag = bytes[0];
        let reserved: [u8; 3] = [bytes[1], bytes[2], bytes[3]];
        assert(reserved@ =~= bytes@.subrange(1, 4));
        let entry_len = read_be32(bytes, 4);
        let entry = match SomeIPEntry::from_bytes(&bytes[8..24]) {
            Ok(e) => e,
            Err(e) => {
                return Err(e);
            },
        };
        assert(entry == entry_at(bytes@, 8)) by {
            assert forall|k: int| 0 <= k < 16 implies #[trigger] bytes@.subrange(8, 24)[k] == bytes@[8
                + k] by {}
        }
        let o: [u8; 4] = [bytes[24], bytes[25], bytes[26], bytes[27]];
        let options_len = u32_from_ne_bytes(o);
        Ok(FindOrOfferPayload { flag, reserved, entry_len, entry, options_len })
    }
}

impl Payload for FindOrOfferPayload {
    open spec fn wire_method(&self) -> SomeIPMethod {
        SomeIPMethod::FindOrOffer
    }

    open spec fn encodes_as(&self, bytes: Seq<u8>) -> bool {
        find_offer_encodes(*self, bytes)
    }

    fn method_id(&self) -> (r: SomeIPMethod) {
        SomeIPMethod::FindOrOffer
    }

    fn encode(&self) -> (r: Vec<u8>) {
        self.to_bytes()
    }
}

impl PayloadCodec for FindOrOfferPayload {
    open spec fn decodes_as(data: Seq<u8>, r: SomeIPResult<Self>) -> bool {
        find_offer_decodes(data, r)
    }

    fn decode(data: &[u8]) -> (r: SomeIPResult<Self>) {
        Self::from_bytes(data)
    }
}

/// Decoding the bytes of a payload gives every field back, the options
/// length possibly with its bytes reversed where the reading and the
/// writing byte orders differ.
pub proof fn lemma_find_offer_roundtrip(p: FindOrOfferPayload, bytes: Seq<u8>, q: FindOrOfferPayload)
    requires
        find_offer_encodes(p, bytes),
        find_offer_matches(bytes, q),
    ensures
        q.flag == p.flag && q.reserved == p.reserved && q.entry_len == p.entry_len && q.entry
            == p.entry,
        q.options_len == p.options_len || q.options_len == swap32(p.options_len),
{
    broadcast use vstd::array::group_array_axioms;
    assert(q.reserved@ =~= p.reserved@);
    assert(q.reserved =~= p.reserved);
    assert forall|k: int| 0 <= k < 4 implies #[trigger] bytes[4 + k] == be32(p.entry_len)[k] by {
        assert(bytes.subrange(4, 8)[k] == bytes[4 + k]);
    }
    lemma_be32(p.entry_len, bytes, 4);
    assert forall|k: int| 0 <= k < 16 implies #[trigger] bytes[8 + k] == entry_bytes(p.entry)[k] by {
        assert(bytes.subrange(8, 24)[k] == bytes[8 + k]);
    }
    lemma_entry_at(p.entry, bytes, 8);
    lemma_ne32(p.options_len, bytes, 24, q.options_len);
}

/// The wire layout of a find/offer payload: the flag in byte 0, the three
/// reserved bytes in 1 to 3, the entry length as a big-endian word at 4,
/// the 16 bytes of the entry at 8, and the options length read back in the
/// machine's byte order at 24.
pub proof fn lemma_find_offer_layout(p: FindOrOfferPayload, b: Seq<u8>)
    requires
        find_offer_encodes(p, b),
    ensures
        b.len() == 28,
        b[0] == p.flag,
        b[1] == p.reserved[0] && b[2] == p.reserved[1] && b[3] == p.reserved[2],
        crate::wire::get_be32(b, 4) == p.entry_len,
        b.subrange(8, 24) == entry_bytes(p.entry),
        crate::wire::get_ne32(b, 24) == p.options_len,
{
    assert(b.subrange(1, 4)[0] == b[1] && b.subrange(1, 4)[1] == b[2] && b.subrange(1, 4)[2] == b[3]);
    assert forall|k: int| 0 <= k < 4 implies #[trigger] b[4 + k] == crate::wire::be32(p.entry_len)[k] by {
        assert(b.subrange(4, 8)[k] == b[4 + k]);
    }
    crate::wire::lemma_be32(p.entry_len, b, 4);
    crate::wire::lemma_ne32(p.options_len, b, 24, crate::wire::get_ne32(b, 24));
}

} // verus!
