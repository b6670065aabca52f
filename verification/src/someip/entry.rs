//! SOME/IP service-discovery entry.
use vstd::prelude::*;
use crate::wire::{
    get_ne16, get_ne32, holds_at, lemma_ne16, lemma_ne32, ne16, ne32, push_ne16, push_ne32,
    read_ne16, read_ne32, be16, be32, lemma_to_be_wire16, lemma_to_be_wire32, to_be16_of, to_be32_of, u16_to_be, u32_to_be,
};
use crate::someip::error::{SomeIPError, SomeIPResult};

verus! {

/// A 16-byte service-discovery entry. The multi-byte fields hold their
/// values as `to_be` gives them, so that their bytes in memory, which go on
/// the wire, are big-endian.
#[derive(Debug, Clone, Copy, PartialEq, Eq)]
pub struct SomeIPEntry {
    pub entry_type: u8,
    pub index1: u8,
    pub index2: u8,
    pub num_opt: u8,
    pub service_id: u16,
    pub instance_id: u16,
    /// Major version in the top byte, TTL in the low bits.
    pub major_version_and_ttl: u32,
    pub minor_version: u32,
}

/// The 16 bytes of an entry on the wire: the fields' bytes as they lie in
/// memory.
pub open spec fn entry_bytes(e: SomeIPEntry) -> Seq<u8> {
    seq![e.entry_type, e.index1, e.index2, e.num_opt] + ne16(e.service_id) + ne16(e.instance_id)
        + ne32(e.major_version_and_ttl) + ne32(e.minor_version)
}

/// The entry that the 16 bytes of `s` from `i` on encode.
pub open spec fn entry_at(s: Seq<u8>, i: int) -> SomeIPEntry {
    SomeIPEntry {
        entry_type: s[i],
        index1: s[i + 1],
        index2: s[i + 2],
        num_opt: s[i + 3],
        service_id: get_ne16(s, i + 4),
        instance_id: get_ne16(s, i + 6),
        major_version_and_ttl: get_ne32(s, i + 8),
        minor_version: get_ne32(s, i + 12),
    }
}

/// What decoding an entry from `s` gives.
pub open spec fn entry_decode(s: Seq<u8>) -> SomeIPResult<SomeIPEntry> {
    if s.len() < 16 {
        Err(SomeIPError::InsufficientBuffer { expected: 16, actual: s.len() as usize })
    } else {
        Ok(entry_at(s, 0))
    }
}

/// The combined major-version/TTL word before byte-order conversion.
pub open spec fn version_ttl_word(major_version: u8, ttl: u16) -> u32 {
    ((major_version as u32) << 24u32) | (ttl as u32)
}

impl SomeIPEntry {
    /// The default entry: service 0x433F, instance 0xFFFF, major version 0xFF
    /// with TTL 0xFFFF and minor version 0xFFFFFFFF, each passed through `to_be`.
    pub fn default_entry() -> (r: SomeIPEntry)
        ensures
            r.entry_type == 0 && r.index1 == 0 && r.index2 == 0 && r.num_opt == 0,
            to_be16_of(r.service_id, 0x433F),
            to_be16_of(r.instance_id, 0xFFFF),
            to_be32_of(r.major_version_and_ttl, 0xFF00FFFF),
            to_be32_of(r.minor_version, 0xFFFFFFFF),
    {
        SomeIPEntry {
            entry_type: 0x00,
            index1: 0x00,
            index2: 0x00,
            num_opt: 0x00,
            service_id: u16_to_be(0x433F),
            instance_id: u16_to_be(0xFFFF),
            major_version_and_ttl: u32_to_be(0xFF00FFFF),
            minor_version: u32_to_be(0xFFFFFFFF),
        }
    }

    /// An entry with the given fields, multi-byte fields passed through `to_be`.
    pub fn new(
        entry_type: u8,
        index1: u8,
        index2: u8,
        num_opt: u8,
        service_id: u16,
        instance_id: u16,
        major_version: u8,
        ttl: u16,
        minor_version: u32,
    ) -> (r: SomeIPEntry)
        ensures
            r.entry_type == entry_type && r.index1 == index1 && r.index2 == index2 && r.num_opt
                == num_opt,
            to_be16_of(r.service_id, service_id),
            to_be16_of(r.instance_id, instance_id),
            to_be32_of(r.major_version_and_ttl, version_ttl_word(major_version, ttl)),
            to_be32_of(r.minor_version, minor_version),
    {
        let word: u32 = ((major_version as u32) << 24u32) | (ttl as u32);
        SomeIPEntry {
            entry_type,
            index1,
            index2,
            num_opt,
            service_id: u16_to_be(service_id),
            instance_id: u16_to_be(instance_id),
            major_version_and_ttl: u32_to_be(word),
            minor_version: u32_to_be(minor_version),
        }
    }

    /// The 16 bytes of the entry, each field's bytes as they lie in memory:
    /// big-endian for values made with `to_be`.
    pub fn to_bytes(&self) -> (r: Vec<u8>)
        ensures
            r@ == entry_bytes(*self),
    {
        let mut bytes: Vec<u8> = Vec::new();
        bytes.push(self.entry_type);
        bytes.push(self.index1);
        bytes.push(self.index2);
        bytes.push(self.num_opt);
        push_ne16(&mut bytes, self.service_id);
        push_ne16(&mut bytes, self.instance_id);
        push_ne32(&mut bytes, self.major_version_and_ttl);
        push_ne32(&mut bytes, self.minor_version);
        assert(bytes@ =~= entry_bytes(*self));
        bytes
    }

    /// Decodes an entry from the first 16 bytes of `bytes`.
    pub fn from_bytes(bytes: &[u8]) -> (r: SomeIPResult<SomeIPEntry>)
        ensures
            r == entry_decode(bytes@),
    {
        if bytes.len() < 16 {
            return Err(SomeIPError::insufficient_buffer(16, bytes.len()));
        }
        Ok(SomeIPEntry {
            entry_type: bytes[0],
            index1: bytes[1],
            index2: bytes[2],
            num_opt: bytes[3],
            service_id: read_ne16(bytes, 4),
            instance_id: read_ne16(bytes, 6),
            major_version_and_ttl: read_ne32(bytes, 8),
            minor_version: read_ne32(bytes, 12),
        })
    }
}

/// The bytes of an entry, placed at `i` in any buffer, decode to the entry.
pub proof fn lemma_entry_at(e: SomeIPEntry, s: Seq<u8>, i: int)
    requires
        holds_at(s, i, entry_bytes(e)),
    ensures
        entry_at(s, i) == e,
{
    let w = entry_bytes(e);
    assert(s[i + 0] == w[0] && s[i + 1] == w[1] && s[i + 2] == w[2] && s[i + 3] == w[3]);
    assert forall|k: int| 0 <= k < 2 implies #[trigger] s[(i + 4) + k] == ne16(e.service_id)[k] by {
        assert(s[i + (4 + k)] == w[4 + k]);
    }
    assert forall|k: int| 0 <= k < 2 implies #[trigger] s[(i + 6) + k] == ne16(e.instance_id)[k] by {
        assert(s[i + (6 + k)] == w[6 + k]);
    }
    assert forall|k: int| 0 <= k < 4 implies #[trigger] s[(i + 8) + k] == ne32(
        e.major_version_and_ttl,
    )[k] by {
        assert(s[i + (8 + k)] == w[8 + k]);
    }
    assert forall|k: int| 0 <= k < 4 implies #[trigger] s[(i + 12) + k] == ne32(e.minor_version)[k] by {
        assert(s[i + (12 + k)] == w[12 + k]);
    }
    lemma_ne16(e.service_id, s, i + 4, get_ne16(s, i + 4));
    lemma_ne16(e.instance_id, s, i + 6, get_ne16(s, i + 6));
    lemma_ne32(e.major_version_and_ttl, s, i + 8, get_ne32(s, i + 8));
    lemma_ne32(e.minor_version, s, i + 12, get_ne32(s, i + 12));
}

/// An entry whose multi-byte fields were made with `to_be` goes on the wire
/// big-endian: the service id 0x433F of the default entry as 0x43 0x3F.
pub proof fn lemma_entry_wire_big_endian(
    e: SomeIPEntry,
    service_id: u16,
    instance_id: u16,
    version_ttl: u32,
    minor_version: u32,
)
    requires
        to_be16_of(e.service_id, service_id),
        to_be16_of(e.instance_id, instance_id),
        to_be32_of(e.major_version_and_ttl, version_ttl),
        to_be32_of(e.minor_version, minor_version),
    ensures
        entry_bytes(e) == seq![e.entry_type, e.index1, e.index2, e.num_opt] + be16(service_id) + be16(
            instance_id,
        ) + be32(version_ttl) + be32(minor_version),
{
    lemma_to_be_wire16(e.service_id, service_id);
    lemma_to_be_wire16(e.instance_id, instance_id);
    lemma_to_be_wire32(e.major_version_and_ttl, version_ttl);
    lemma_to_be_wire32(e.minor_version, minor_version);
}

/// Decoding the bytes of an entry gives the entry back.
pub proof fn lemma_entry_roundtrip(e: SomeIPEntry)
    ensures
        entry_decode(entry_bytes(e)) == Ok::<SomeIPEntry, SomeIPError>(e),
{
    lemma_entry_at(e, entry_bytes(e), 0);
}

/// Service-discovery state.
#[derive(Debug, Clone, Copy, PartialEq, Eq)]
pub enum SomeIPStatus {
    Init,
    Found,
    Wait,
}

impl SomeIPStatus {
    /// The number that stands for the state.
    pub fn code(&self) -> (r: u8)
        ensures
            r == match *self {
                SomeIPStatus::Init => 1u8,
                SomeIPStatus::Found => 2u8,
                SomeIPStatus::Wait => 3u8,
            },
    {
        match self {
            SomeIPStatus::Init => 1,
            SomeIPStatus::Found => 2,
            SomeIPStatus::Wait => 3,
        }
    }
}

impl Default for SomeIPStatus {
    fn default() -> (r: SomeIPStatus)
        ensures
            r == SomeIPStatus::Init,
    {
        SomeIPStatus::Init
    }
}

/// The wire layout of an entry: the type, the two option indexes and the
/// option counts in bytes 0 to 3, then the service id at 4, the instance id
/// at 6, the major version and TTL at 8 and the minor version at 12, each
/// read back in the machine's byte order.
pub proof fn lemma_entry_layout(e: SomeIPEntry)
    ensures
        ({
            let b = entry_bytes(e);
            &&& b.len() == 16
            &&& b[0] == e.entry_type && b[1] == e.index1 && b[2] == e.index2 && b[3] == e.num_opt
            &&& get_ne16(b, 4) == e.service_id
            &&& get_ne16(b, 6) == e.instance_id
            &&& get_ne32(b, 8) == e.major_version_and_ttl
            &&& get_ne32(b, 12) == e.minor_version
        }),
{
    let b = entry_bytes(e);
    assert forall|k: int| 0 <= k < 2 implies #[trigger] b[4 + k] == ne16(e.service_id)[k] by {}
    assert forall|k: int| 0 <= k < 2 implies #[trigger] b[6 + k] == ne16(e.instance_id)[k] by {}
    assert forall|k: int| 0 <= k < 4 implies #[trigger] b[8 + k] == ne32(e.major_version_and_ttl)[k] by {}
    assert forall|k: int| 0 <= k < 4 implies #[trigger] b[12 + k] == ne32(e.minor_version)[k] by {}
    crate::wire::lemma_ne16(e.service_id, b, 4, get_ne16(b, 4));
    crate::wire::lemma_ne16(e.instance_id, b, 6, get_ne16(b, 6));
    crate::wire::lemma_ne32(e.major_version_and_ttl, b, 8, get_ne32(b, 8));
    crate::wire::lemma_ne32(e.minor_version, b, 12, get_ne32(b, 12));
}

} // verus!
