//! Byte-order helpers shared by every wire format of the crate.
use vstd::prelude::*;
use vstd::endian::{Endian, endianness};

verus! {

/// Big-endian bytes of a `u16`.
pub open spec fn be16(x: u16) -> Seq<u8> {
    seq![(x >> 8u16) as u8, x as u8]
}

/// Big-endian bytes of a `u32`.
pub open spec fn be32(x: u32) -> Seq<u8> {
    seq![(x >> 24u32) as u8, (x >> 16u32) as u8, (x >> 8u32) as u8, x as u8]
}

/// Big-endian bytes of a `u64`.
pub open spec fn be64(x: u64) -> Seq<u8> {
    seq![
        (x >> 56u64) as u8, (x >> 48u64) as u8, (x >> 40u64) as u8, (x >> 32u64) as u8,
        (x >> 24u64) as u8, (x >> 16u64) as u8, (x >> 8u64) as u8, x as u8,
    ]
}

/// Little-endian bytes of a `u16`.
pub open spec fn le16(x: u16) -> Seq<u8> {
    seq![x as u8, (x >> 8u16) as u8]
}

/// Little-endian bytes of a `u32`.
pub open spec fn le32(x: u32) -> Seq<u8> {
    seq![x as u8, (x >> 8u32) as u8, (x >> 16u32) as u8, (x >> 24u32) as u8]
}

/// The `u16` whose big-endian bytes start at `i` in `s`.
pub open spec fn get_be16(s: Seq<u8>, i: int) -> u16 {
    ((s[i] as u16) << 8u16) | (s[i + 1] as u16)
}

/// The `u32` whose big-endian bytes start at `i` in `s`.
pub open spec fn get_be32(s: Seq<u8>, i: int) -> u32 {
    ((s[i] as u32) << 24u32) | ((s[i + 1] as u32) << 16u32) | ((s[i + 2] as u32) << 8u32) | (s[i
        + 3] as u32)
}

/// The `u64` whose big-endian bytes start at `i` in `s`.
pub open spec fn get_be64(s: Seq<u8>, i: int) -> u64 {
    ((get_be32(s, i) as u64) << 32u64) | (get_be32(s, i + 4) as u64)
}

/// The `u16` whose little-endian bytes start at `i` in `s`.
pub open spec fn get_le16(s: Seq<u8>, i: int) -> u16 {
    ((s[i + 1] as u16) << 8u16) | (s[i] as u16)
}

/// The `u32` whose little-endian bytes start at `i` in `s`.
pub open spec fn get_le32(s: Seq<u8>, i: int) -> u32 {
    ((s[i + 3] as u32) << 24u32) | ((s[i + 2] as u32) << 16u32) | ((s[i + 1] as u32) << 8u32) | (s[i] as u32)
}

/// `x` with its two bytes exchanged.
pub open spec fn swap16(x: u16) -> u16 {
    get_le16(be16(x), 0)
}

/// `x` with its four bytes in reverse order.
pub open spec fn swap32(x: u32) -> u32 {
    get_le32(be32(x), 0)
}

/// The machine the code runs on is little-endian (else big-endian): one
/// byte order for every native conversion.
pub open spec fn native_little() -> bool {
    endianness() == Endian::Little
}

/// The bytes of `x` in the machine's byte order.
pub open spec fn ne16(x: u16) -> Seq<u8> {
    if native_little() {
        le16(x)
    } else {
        be16(x)
    }
}

/// The bytes of `x` in the machine's byte order.
pub open spec fn ne32(x: u32) -> Seq<u8> {
    if native_little() {
        le32(x)
    } else {
        be32(x)
    }
}

/// The `u16` whose bytes in the machine's order start at `i` in `s`.
pub open spec fn get_ne16(s: Seq<u8>, i: int) -> u16 {
    if native_little() {
        get_le16(s, i)
    } else {
        get_be16(s, i)
    }
}

/// The `u32` whose bytes in the machine's order start at `i` in `s`.
pub open spec fn get_ne32(s: Seq<u8>, i: int) -> u32 {
    if native_little() {
        get_le32(s, i)
    } else {
        get_be32(s, i)
    }
}

/// `r` is what `u16::to_be` gives for `x`: the bytes exchanged on a
/// little-endian machine, `x` itself on a big-endian one.
pub open spec fn to_be16_of(r: u16, x: u16) -> bool {
    r == (if native_little() {
        swap16(x)
    } else {
        x
    })
}

/// `r` is what `u32::to_be` gives for `x`: the bytes reversed on a
/// little-endian machine, `x` itself on a big-endian one.
pub open spec fn to_be32_of(r: u32, x: u32) -> bool {
    r == (if native_little() {
        swap32(x)
    } else {
        x
    })
}

/// `s` holds the bytes of `x` in the machine's order from index `i` on.
pub open spec fn ne16_at(s: Seq<u8>, i: int, x: u16) -> bool {
    holds_at(s, i, ne16(x))
}

/// `x` is what reading the two bytes at `i` in the machine's order gives.
pub open spec fn ne16_read(s: Seq<u8>, i: int, x: u16) -> bool {
    x == get_ne16(s, i)
}

/// `s` holds the bytes of `x` in the machine's order from index `i` on.
pub open spec fn ne32_at(s: Seq<u8>, i: int, x: u32) -> bool {
    holds_at(s, i, ne32(x))
}

/// `x` is what reading the four bytes at `i` in the machine's order gives.
pub open spec fn ne32_read(s: Seq<u8>, i: int, x: u32) -> bool {
    x == get_ne32(s, i)
}

/// `s` holds `w` from index `i` on.
pub open spec fn holds_at(s: Seq<u8>, i: int, w: Seq<u8>) -> bool {
    0 <= i && i + w.len() <= s.len() && forall|k: int| 0 <= k < w.len() ==> #[trigger] s[i + k] == w[k]
}

pub proof fn lemma_be16(x: u16, s: Seq<u8>, i: int)
    requires
        holds_at(s, i, be16(x)),
    ensures
        get_be16(s, i) == x,
{
    assert(s[i + 0] == be16(x)[0]);
    assert(s[i + 1] == be16(x)[1]);
    let a = s[i];
    let b = s[i + 1];
    assert(a == (x >> 8u16) as u8 && b == x as u8 ==> ((a as u16) << 8u16) | (b as u16) == x)
        by (bit_vector);
}

/// Reading back, in the machine's order, what was written in it gives the
/// value back.
pub proof fn lemma_ne16(x: u16, s: Seq<u8>, i: int, y: u16)
    requires
        ne16_at(s, i, x),
        ne16_read(s, i, y),
    ensures
        y == x,
{
    if native_little() {
        lemma_le16(x, s, i);
    } else {
        lemma_be16(x, s, i);
    }
}

/// Reading back, in the machine's order, what was written in it gives the
/// value back.
pub proof fn lemma_ne32(x: u32, s: Seq<u8>, i: int, y: u32)
    requires
        ne32_at(s, i, x),
        ne32_read(s, i, y),
    ensures
        y == x,
{
    if native_little() {
        lemma_le32(x, s, i);
    } else {
        lemma_be32(x, s, i);
    }
}

/// The machine-order bytes of what `u16::to_be` gives for `x` are the
/// big-endian bytes of `x`.
pub proof fn lemma_to_be_wire16(r: u16, x: u16)
    requires
        to_be16_of(r, x),
    ensures
        ne16(r) == be16(x),
{
    if native_little() {
        let y = swap16(x);
        assert(le16(y) =~= be16(x)) by {
            assert(((x as u8) as u16) << 8u16 | (((x >> 8u16) as u8) as u16) == y ==> (y as u8 == (x
                >> 8u16) as u8 && (y >> 8u16) as u8 == x as u8)) by (bit_vector);
            assert(be16(x)[0] == (x >> 8u16) as u8 && be16(x)[1] == x as u8);
        }
    }
}

/// The machine-order bytes of what `u32::to_be` gives for `x` are the
/// big-endian bytes of `x`.
pub proof fn lemma_to_be_wire32(r: u32, x: u32)
    requires
        to_be32_of(r, x),
    ensures
        ne32(r) == be32(x),
{
    if native_little() {
        let y = swap32(x);
        let b = be32(x);
        assert(le32(y) =~= be32(x)) by {
            assert(b[0] == (x >> 24u32) as u8 && b[1] == (x >> 16u32) as u8 && b[2] == (x >> 8u32)
                as u8 && b[3] == x as u8);
            assert(y == ((b[3] as u32) << 24u32) | ((b[2] as u32) << 16u32) | ((b[1] as u32)
                << 8u32) | (b[0] as u32));
            let (b0, b1, b2, b3) = (b[0], b[1], b[2], b[3]);
            assert(y == ((b3 as u32) << 24u32) | ((b2 as u32) << 16u32) | ((b1 as u32) << 8u32)
                | (b0 as u32) ==> y as u8 == b0 && (y >> 8u32) as u8 == b1 && (y >> 16u32) as u8
                == b2 && (y >> 24u32) as u8 == b3) by (bit_vector);
        }
    }
}

pub proof fn lemma_le16(x: u16, s: Seq<u8>, i: int)
    requires
        holds_at(s, i, le16(x)),
    ensures
        get_le16(s, i) == x,
{
    assert(s[i + 0] == le16(x)[0]);
    assert(s[i + 1] == le16(x)[1]);
    let a = s[i];
    let b = s[i + 1];
    assert(a == x as u8 && b == (x >> 8u16) as u8 ==> ((b as u16) << 8u16) | (a as u16) == x)
        by (bit_vector);
}

pub proof fn lemma_le32(x: u32, s: Seq<u8>, i: int)
    requires
        holds_at(s, i, le32(x)),
    ensures
        get_le32(s, i) == x,
{
    assert(s[i + 0] == le32(x)[0]);
    assert(s[i + 1] == le32(x)[1]);
    assert(s[i + 2] == le32(x)[2]);
    assert(s[i + 3] == le32(x)[3]);
    let a = s[i];
    let b = s[i + 1];
    let c = s[i + 2];
    let d = s[i + 3];
    assert(a == x as u8 && b == (x >> 8u32) as u8 && c == (x >> 16u32) as u8 && d == (x >> 24u32)
        as u8 ==> ((d as u32) << 24u32) | ((c as u32) << 16u32) | ((b as u32) << 8u32) | (a as u32)
        == x) by (bit_vector);
}

pub proof fn lemma_be32(x: u32, s: Seq<u8>, i: int)
    requires
        holds_at(s, i, be32(x)),
    ensures
        get_be32(s, i) == x,
{
    assert(s[i + 0] == be32(x)[0]);
    assert(s[i + 1] == be32(x)[1]);
    assert(s[i + 2] == be32(x)[2]);
    assert(s[i + 3] == be32(x)[3]);
    let a = s[i];
    let b = s[i + 1];
    let c = s[i + 2];
    let d = s[i + 3];
    assert(a == (x >> 24u32) as u8 && b == (x >> 16u32) as u8 && c == (x >> 8u32) as u8 && d
        == x as u8 ==> ((a as u32) << 24u32) | ((b as u32) << 16u32) | ((c as u32) << 8u32) | (
    d as u32) == x) by (bit_vector);
}

/// The big-endian bytes of a 16-bit value are its high and low byte.
pub proof fn lemma_be16_digits(x: u16)
    ensures
        be16(x) == seq![(x / 256) as u8, (x % 256) as u8],
        (x >> 8u16) as u8 == (x / 256) as u8,
        (x & 0xFFu16) as u8 == (x % 256) as u8,
{
    assert((x >> 8u16) as u8 == (x / 256) as u8 && x as u8 == (x % 256) as u8 && (x & 0xFFu16) as u8
        == (x % 256) as u8) by (bit_vector);
    assert(be16(x) =~= seq![(x / 256) as u8, (x % 256) as u8]);
}

/// The big-endian word of a value below 2^16 is two zero bytes, then its
/// high and low byte.
pub proof fn lemma_be32_small(x: u32)
    requires
        x < 65536,
    ensures
        be32(x) == seq![0u8, 0u8, (x / 256) as u8, (x % 256) as u8],
{
    assert((x >> 24u32) as u8 == 0 && (x >> 16u32) as u8 == 0 && (x >> 8u32) as u8 == (x / 256) as u8
        && x as u8 == (x % 256) as u8) by (bit_vector)
        requires
            x < 65536,
    ;
    assert(be32(x) =~= seq![0u8, 0u8, (x / 256) as u8, (x % 256) as u8]);
}

/// Reading a big-endian word: its low byte is the last of the four, its low
/// 16 bits the last two, and it is zero exactly when all four bytes are.
pub proof fn lemma_get_be32_digits(s: Seq<u8>, i: int)
    requires
        0 <= i,
        i + 4 <= s.len(),
    ensures
        get_be32(s, i) as u8 == s[i + 3],
        get_be32(s, i) as u16 == s[i + 2] as int * 256 + s[i + 3] as int,
        (get_be32(s, i) == 0) == (s[i] == 0 && s[i + 1] == 0 && s[i + 2] == 0 && s[i + 3] == 0),
        get_be32(s, i) == s[i] as int * 16777216 + s[i + 1] as int * 65536 + s[i + 2] as int * 256
            + s[i + 3] as int,
{
    let a = s[i];
    let b = s[i + 1];
    let c = s[i + 2];
    let d = s[i + 3];
    let w = ((a as u32) << 24u32) | ((b as u32) << 16u32) | ((c as u32) << 8u32) | (d as u32);
    assert(w == get_be32(s, i));
    assert(w as u8 == d && w as u16 == (c as u16) * 256 + (d as u16) && ((w == 0) == (a == 0 && b == 0
        && c == 0 && d == 0)) && w == (a as u32) * 16777216 + (b as u32) * 65536 + (c as u32) * 256
        + (d as u32)) by (bit_vector)
        requires
            w == ((a as u32) << 24u32) | ((b as u32) << 16u32) | ((c as u32) << 8u32) | (d as u32),
    ;
}

/// The big-endian bytes of a 32-bit value are its base-256 digits, most
/// significant first.
pub proof fn lemma_be32_digits(x: u32)
    ensures
        be32(x) == seq![
            (x / 16777216) as u8,
            ((x / 65536) % 256) as u8,
            ((x / 256) % 256) as u8,
            (x % 256) as u8,
        ],
{
    assert((x >> 24u32) as u8 == (x / 16777216) as u8 && (x >> 16u32) as u8 == ((x / 65536) % 256) as u8
        && (x >> 8u32) as u8 == ((x / 256) % 256) as u8 && x as u8 == (x % 256) as u8) by (bit_vector);
    assert(be32(x) =~= seq![
        (x / 16777216) as u8,
        ((x / 65536) % 256) as u8,
        ((x / 256) % 256) as u8,
        (x % 256) as u8,
    ]);
}

/// A big-endian 16-bit read is the first byte times 256 plus the second.
pub proof fn lemma_get_be16_digits(s: Seq<u8>, i: int)
    requires
        0 <= i,
        i + 2 <= s.len(),
    ensures
        get_be16(s, i) == s[i] as int * 256 + s[i + 1] as int,
{
    let a = s[i];
    let b = s[i + 1];
    assert(((a as u16) << 8u16) | (b as u16) == (a as u16) * 256 + (b as u16)) by (bit_vector);
}

pub proof fn lemma_be64(x: u64, s: Seq<u8>, i: int)
    requires
        holds_at(s, i, be64(x)),
    ensures
        get_be64(s, i) == x,
{
    let hi = (x >> 32u64) as u32;
    let lo = x as u32;
    assert(be64(x) =~= be32(hi) + be32(lo)) by {
        assert(((x >> 32u64) as u32 >> 24u32) as u8 == (x >> 56u64) as u8) by (bit_vector);
        assert(((x >> 32u64) as u32 >> 16u32) as u8 == (x >> 48u64) as u8) by (bit_vector);
        assert(((x >> 32u64) as u32 >> 8u32) as u8 == (x >> 40u64) as u8) by (bit_vector);
        assert(((x >> 32u64) as u32) as u8 == (x >> 32u64) as u8) by (bit_vector);
        assert((x as u32 >> 24u32) as u8 == (x >> 24u64) as u8) by (bit_vector);
        assert((x as u32 >> 16u32) as u8 == (x >> 16u64) as u8) by (bit_vector);
        assert((x as u32 >> 8u32) as u8 == (x >> 8u64) as u8) by (bit_vector);
        assert((x as u32) as u8 == x as u8) by (bit_vector);
    }
    assert forall|k: int| 0 <= k < 4 implies #[trigger] s[i + k] == be32(hi)[k] by {
        assert(s[i + k] == be64(x)[k]);
    }
    assert forall|k: int| 0 <= k < 4 implies #[trigger] s[(i + 4) + k] == be32(lo)[k] by {
        assert(s[i + (4 + k)] == be64(x)[4 + k]);
    }
    lemma_be32(hi, s, i);
    lemma_be32(lo, s, i + 4);
    assert((((x >> 32u64) as u32) as u64) << 32u64 | ((x as u32) as u64) == x) by (bit_vector);
}

/// Appends the big-endian bytes of `x`.
pub fn push_be16(v: &mut Vec<u8>, x: u16)
    ensures
        final(v)@ == old(v)@ + be16(x),
{
    v.push((x >> 8u16) as u8);
    v.push(x as u8);
}

/// Appends the big-endian bytes of `x`.
pub fn push_be32(v: &mut Vec<u8>, x: u32)
    ensures
        final(v)@ == old(v)@ + be32(x),
{
    v.push((x >> 24u32) as u8);
    v.push((x >> 16u32) as u8);
    v.push((x >> 8u32) as u8);
    v.push(x as u8);
}

/// Appends the big-endian bytes of `x`.
pub fn push_be64(v: &mut Vec<u8>, x: u64)
    ensures
        final(v)@ == old(v)@ + be64(x),
{
    v.push((x >> 56u64) as u8);
    v.push((x >> 48u64) as u8);
    v.push((x >> 40u64) as u8);
    v.push((x >> 32u64) as u8);
    v.push((x >> 24u64) as u8);
    v.push((x >> 16u64) as u8);
    v.push((x >> 8u64) as u8);
    v.push(x as u8);
}

/// Appends every byte of `s`.
pub fn push_all(v: &mut Vec<u8>, s: &[u8])
    ensures
        final(v)@ == old(v)@ + s@,
{
    let mut i: usize = 0;
    while i < s.len()
        invariant
            i <= s@.len(),
            v@ == old(v)@ + s@.subrange(0, i as int),
        decreases s@.len() - i,
    {
        v.push(s[i]);
        i = i + 1;
        assert(s@.subrange(0, i as int) =~= s@.subrange(0, i - 1) + seq![s@[i - 1]]);
    }
    assert(s@.subrange(0, s@.len() as int) =~= s@);
}

/// Reads the big-endian `u16` at `i`.
pub fn read_be16(b: &[u8], i: usize) -> (r: u16)
    requires
        i + 2 <= b@.len(),
    ensures
        r == get_be16(b@, i as int),
{
    ((b[i] as u16) << 8u16) | (b[i + 1] as u16)
}

/// Reads the big-endian `u32` at `i`.
pub fn read_be32(b: &[u8], i: usize) -> (r: u32)
    requires
        i + 4 <= b@.len(),
    ensures
        r == get_be32(b@, i as int),
{
    ((b[i] as u32) << 24u32) | ((b[i + 1] as u32) << 16u32) | ((b[i + 2] as u32) << 8u32) | (b[i
        + 3] as u32)
}

/// Reads the big-endian `u64` at `i`.
pub fn read_be64(b: &[u8], i: usize) -> (r: u64)
    requires
        i + 8 <= b@.len(),
    ensures
        r == get_be64(b@, i as int),
{
    assert(b@.len() == b.len());
    let hi = read_be32(b, i);
    let lo = read_be32(b, i + 4);
    ((hi as u64) << 32u64) | (lo as u64)
}

/// Copies `b[start..end]` into a new vector.
pub fn copy_range(b: &[u8], start: usize, end: usize) -> (r: Vec<u8>)
    requires
        start <= end <= b@.len(),
    ensures
        r@ == b@.subrange(start as int, end as int),
{
    let mut r: Vec<u8> = Vec::new();
    let mut i: usize = start;
    while i < end
        invariant
            start <= i <= end <= b@.len(),
            r@ == b@.subrange(start as int, i as int),
        decreases end - i,
    {
        r.push(b[i]);
        i = i + 1;
        assert(b@.subrange(start as int, i as int) =~= b@.subrange(start as int, i - 1) + seq![b@[i - 1]]);
    }
    r
}

/// `u16::to_be`: `x` on a big-endian machine, its bytes exchanged on a
/// little-endian one (vstd's `endianness` names the machine's order).
#[verifier::external_body]
pub(crate) fn u16_to_be(x: u16) -> (r: u16)
    ensures
        to_be16_of(r, x),
{
    x.to_be()
}

/// `u32::to_be`: `x` on a big-endian machine, its bytes reversed on a
/// little-endian one.
#[verifier::external_body]
pub(crate) fn u32_to_be(x: u32) -> (r: u32)
    ensures
        to_be32_of(r, x),
{
    x.to_be()
}

/// `u16::to_ne_bytes`: the bytes of `x` in the machine's byte order.
#[verifier::external_body]
pub(crate) fn u16_to_ne_bytes(x: u16) -> (r: [u8; 2])
    ensures
        r@ == ne16(x),
{
    x.to_ne_bytes()
}

/// `u32::to_ne_bytes`: the bytes of `x` in the machine's byte order.
#[verifier::external_body]
pub(crate) fn u32_to_ne_bytes(x: u32) -> (r: [u8; 4])
    ensures
        r@ == ne32(x),
{
    x.to_ne_bytes()
}

/// `u16::from_ne_bytes`: reads two bytes in the machine's byte order.
#[verifier::external_body]
pub(crate) fn u16_from_ne_bytes(b: [u8; 2]) -> (r: u16)
    ensures
        r == get_ne16(b@, 0),
{
    u16::from_ne_bytes(b)
}

/// `u32::from_ne_bytes`: reads four bytes in the machine's byte order.
#[verifier::external_body]
pub(crate) fn u32_from_ne_bytes(b: [u8; 4]) -> (r: u32)
    ensures
        r == get_ne32(b@, 0),
{
    u32::from_ne_bytes(b)
}

/// Appends the bytes of `x` in the machine's order.
pub fn push_ne16(v: &mut Vec<u8>, x: u16)
    ensures
        final(v)@ == old(v)@ + ne16(x),
{
    let b = u16_to_ne_bytes(x);
    v.push(b[0]);
    v.push(b[1]);
    assert(final(v)@ =~= old(v)@ + ne16(x));
}

/// Appends the bytes of `x` in the machine's order.
pub fn push_ne32(v: &mut Vec<u8>, x: u32)
    ensures
        final(v)@ == old(v)@ + ne32(x),
{
    let b = u32_to_ne_bytes(x);
    v.push(b[0]);
    v.push(b[1]);
    v.push(b[2]);
    v.push(b[3]);
    assert(final(v)@ =~= old(v)@ + ne32(x));
}

/// Reads the `u16` at `i` in the machine's order.
pub fn read_ne16(b: &[u8], i: usize) -> (r: u16)
    requires
        i + 2 <= b@.len(),
    ensures
        r == get_ne16(b@, i as int),
{
    u16_from_ne_bytes([b[i], b[i + 1]])
}

/// Reads the `u32` at `i` in the machine's order.
pub fn read_ne32(b: &[u8], i: usize) -> (r: u32)
    requires
        i + 4 <= b@.len(),
    ensures
        r == get_ne32(b@, i as int),
{
    u32_from_ne_bytes([b[i], b[i + 1], b[i + 2], b[i + 3]])
}

} // verus!
