//! IPv4 and MAC address text and numbers.
use vstd::prelude::*;
use crate::text::{
    hex2, hex_char, hex_digit, hex_digit_value, hex_value, is_hex_char, str_chars, string_from_chars,
    trim, trim_chars,
};
use crate::someip::error::{SomeIPError, SomeIPResult};
use crate::someip::ipv4::{ipv4_format, ipv4_octets, ipv4_parse, ipv4_text, is_ipv4_text};
use crate::wire::{be32, get_be32, get_le32, u32_from_ne_bytes};

verus! {

broadcast use vstd::string::group_string_axioms;

/// ASCII lower-casing of one character.
pub open spec fn ascii_lower(c: char) -> char {
    if 'A' <= c <= 'Z' {
        ((c as u8) + 32) as u8 as char
    } else {
        c
    }
}

pub open spec fn is_mac_separator(c: char) -> bool {
    c == ':' || c == '-' || c == '.'
}

/// `t` lower-cased, with the separators `:`, `-` and `.` removed.
pub open spec fn mac_clean(t: Seq<char>) -> Seq<char>
    decreases t.len(),
{
    if t.len() == 0 {
        t
    } else {
        let c = t.last();
        let rest = mac_clean(t.drop_last());
        if is_mac_separator(c) {
            rest
        } else {
            rest.push(ascii_lower(c))
        }
    }
}

pub open spec fn all_ascii(t: Seq<char>) -> bool {
    forall|i: int| 0 <= i < t.len() ==> t[i] <= '\u{7f}'
}

/// Two characters that `u8::from_str_radix(_, 16)` accepts: two hex digits,
/// or a plus sign and one hex digit.
pub open spec fn hex_pair_ok(c0: char, c1: char) -> bool {
    (is_hex_char(c0) || c0 == '+') && is_hex_char(c1)
}

/// The byte that `u8::from_str_radix(_, 16)` gives for two accepted characters.
pub open spec fn hex_pair_value(c0: char, c1: char) -> u8 {
    if c0 == '+' {
        hex_value(c1)
    } else {
        (hex_value(c0) * 16 + hex_value(c1)) as u8
    }
}

/// The text `s` is a MAC address: after trimming white space it is ASCII, and
/// lower-cased without separators it is six accepted pairs of characters.
pub open spec fn mac_text_ok(s: Seq<char>) -> bool {
    let t = trim_chars(s);
    let c = mac_clean(t);
    &&& all_ascii(t)
    &&& c.len() == 12
    &&& forall|k: int| 0 <= k < 6 ==> #[trigger] hex_pair_ok(c[2 * k], c[2 * k + 1])
}

/// The six bytes of a MAC address text.
pub open spec fn mac_text_bytes(s: Seq<char>) -> Seq<u8> {
    let c = mac_clean(trim_chars(s));
    Seq::new(6, |k: int| hex_pair_value(c[2 * k], c[2 * k + 1]))
}

/// The text of six bytes: two hex digits each, joined by `sep`.
pub open spec fn mac_text(b: Seq<u8>, sep: char, upper: bool) -> Seq<char> {
    hex2(b[0], upper) + seq![sep] + hex2(b[1], upper) + seq![sep] + hex2(b[2], upper) + seq![sep]
        + hex2(b[3], upper) + seq![sep] + hex2(b[4], upper) + seq![sep] + hex2(b[5], upper)
}

/// The number whose low 48 bits are the six bytes, first byte highest.
pub open spec fn mac_value(b: Seq<u8>) -> int {
    b[0] * 0x10000000000 + b[1] * 0x100000000 + b[2] * 0x1000000 + b[3] * 0x10000 + b[4] * 0x100
        + b[5]
}

/// The six bytes of the low 48 bits of `v`, highest first.
pub open spec fn mac_bytes_of(v: u64) -> Seq<u8> {
    seq![
        (v >> 40u64) as u8,
        (v >> 32u64) as u8,
        (v >> 24u64) as u8,
        (v >> 16u64) as u8,
        (v >> 8u64) as u8,
        v as u8,
    ]
}

fn pair_value(c0: char, c1: char) -> (r: Option<u8>)
    ensures
        r == (if hex_pair_ok(c0, c1) { Some(hex_pair_value(c0, c1)) } else { None::<u8> }),
{
    let lo = match hex_digit_value(c1) {
        Some(v) => v,
        None => {
            return None;
        },
    };
    if c0 == '+' {
        return Some(lo);
    }
    match hex_digit_value(c0) {
        Some(hi) => Some(hi * 16 + lo),
        None => None,
    }
}

/// Parses a MAC address written with `:`, `-` or `.` separators, or none,
/// in either case and with surrounding white space.
pub fn mac_string_to_bytes(mac_string: &str) -> (r: SomeIPResult<[u8; 6]>)
    ensures
        match r {
            Ok(b) => mac_text_ok(mac_string@) && b@ == mac_text_bytes(mac_string@),
            Err(e) => !mac_text_ok(mac_string@) && (e matches SomeIPError::InvalidMacAddress(m) && m@ == mac_string@),
        },
{
    let chars = str_chars(mac_string);
    let t = trim(&chars);
    let mut i: usize = 0;
    while i < t.len()
        invariant
            i <= t@.len(),
            t@ == trim_chars(mac_string@),
            forall|j: int| 0 <= j < i ==> t@[j] <= '\u{7f}',
        decreases t@.len() - i,
    {
        if !(t[i] <= '\u{7f}') {
            return Err(SomeIPError::InvalidMacAddress(mac_string.to_string()));
        }
        i = i + 1;
    }
    let mut clean: Vec<char> = Vec::new();
    let mut j: usize = 0;
    while j < t.len()
        invariant
            j <= t@.len(),
            t@ == trim_chars(mac_string@),
            all_ascii(t@),
            clean@ == mac_clean(t@.subrange(0, j as int)),
        decreases t@.len() - j,
    {
        let c = t[j];
        assert(t@.subrange(0, j + 1).drop_last() =~= t@.subrange(0, j as int));
        if !(c == ':' || c == '-' || c == '.') {
            let lc = if 'A' <= c && c <= 'Z' {
                ((c as u8) + 32) as char
            } else {
                c
            };
            clean.push(lc);
        }
        j = j + 1;
    }
    assert(t@.subrange(0, t@.len() as int) =~= t@);
    if clean.len() != 12 {
        return Err(SomeIPError::InvalidMacAddress(mac_string.to_string()));
    }
    let mut out: [u8; 6] = [0u8; 6];
    let mut k: usize = 0;
    while k < 6
        invariant
            k <= 6,
            clean@ == mac_clean(trim_chars(mac_string@)),
            clean@.len() == 12,
            all_ascii(trim_chars(mac_string@)),
            forall|m: int| 0 <= m < k ==> #[trigger] hex_pair_ok(clean@[2 * m], clean@[2 * m + 1]),
            forall|m: int| 0 <= m < k ==> out@[m] == #[trigger] hex_pair_value(clean@[2 * m], clean@[2 * m + 1]),
        decreases 6 - k,
    {
        match pair_value(clean[2 * k], clean[2 * k + 1]) {
            Some(v) => {
                out.set(k, v);
            },
            None => {
                return Err(SomeIPError::InvalidMacAddress(mac_string.to_string()));
            },
        }
        k = k + 1;
    }
    assert(out@ =~= mac_text_bytes(mac_string@));
    Ok(out)
}

/// The text of a MAC address: two hex digits per byte, lower-case unless
/// `uppercase`, joined by `separator` (`:` where none is given).
pub fn mac_bytes_to_string(mac_bytes: &[u8; 6], separator: Option<char>, uppercase: bool) -> (r:
    String)
    ensures
        r@ == mac_text(
            mac_bytes@,
            match separator {
                Some(c) => c,
                None => ':',
            },
            uppercase,
        ),
{
    let sep = match separator {
        Some(c) => c,
        None => ':',
    };
    let mut cs: Vec<char> = Vec::new();
    let mut k: usize = 0;
    while k < 6
        invariant
            k <= 6,
            mac_bytes@.len() == 6,
            cs@.len() == (if k == 0 { 0 } else { 3 * k - 1 }),
            forall|m: int| 0 <= m < k ==> cs@[3 * m] == hex_char(#[trigger] mac_bytes@[m] / 16, uppercase),
            forall|m: int| 0 <= m < k ==> cs@[3 * m + 1] == hex_char(#[trigger] mac_bytes@[m] % 16, uppercase),
            forall|m: int| 0 <= m < k - 1 ==> #[trigger] cs@[3 * m + 2] == sep,
        decreases 6 - k,
    {
        if k > 0 {
            cs.push(sep);
        }
        let b = mac_bytes[k];
        cs.push(hex_digit(b / 16, uppercase));
        cs.push(hex_digit(b % 16, uppercase));
        k = k + 1;
    }
    let ghost want = mac_text(mac_bytes@, sep, uppercase);
    assert(cs@ =~= want) by {
        assert(cs@.len() == want.len());
        assert forall|i: int| 0 <= i < 17 implies cs@[i] == want[i] by {
            let m = i / 3;
            if i % 3 == 0 {
                assert(cs@[3 * m] == hex_char(mac_bytes@[m] / 16, uppercase));
            } else if i % 3 == 1 {
                assert(cs@[3 * m + 1] == hex_char(mac_bytes@[m] % 16, uppercase));
            } else {
                assert(cs@[3 * m + 2] == sep);
            }
        }
    }
    string_from_chars(cs)
}

/// The MAC address of a text as a number: the six bytes, first byte highest.
pub fn mac_string_to_u64(mac_string: &str) -> (r: SomeIPResult<u64>)
    ensures
        match r {
            Ok(v) => mac_text_ok(mac_string@) && v == mac_value(mac_text_bytes(mac_string@)),
            Err(e) => !mac_text_ok(mac_string@) && (e matches SomeIPError::InvalidMacAddress(m) && m@ == mac_string@),
        },
{
    let b = match mac_string_to_bytes(mac_string) {
        Ok(b) => b,
        Err(e) => {
            return Err(e);
        },
    };
    let v: u64 = (b[0] as u64) * 0x10000000000 + (b[1] as u64) * 0x100000000 + (b[2] as u64)
        * 0x1000000 + (b[3] as u64) * 0x10000 + (b[4] as u64) * 0x100 + (b[5] as u64);
    Ok(v)
}

/// The text of the MAC address in the low 48 bits of `value`, lower-case
/// with `:` separators.
pub fn u64_to_mac_string(value: u64) -> (r: String)
    ensures
        r@ == mac_text(mac_bytes_of(value), ':', false),
{
    let b: [u8; 6] = [
        (value >> 40u64) as u8,
        (value >> 32u64) as u8,
        (value >> 24u64) as u8,
        (value >> 16u64) as u8,
        (value >> 8u64) as u8,
        value as u8,
    ];
    assert(b@ =~= mac_bytes_of(value));
    mac_bytes_to_string(&b, Some(':'), false)
}

/// The four octets of an address as a sequence, first octet first.
pub open spec fn octet_seq(o: (u8, u8, u8, u8)) -> Seq<u8> {
    seq![o.0, o.1, o.2, o.3]
}

/// The big-endian number of the IPv4 address written in `ip_string`:
/// its first octet in the highest byte.
pub fn ip_string_to_u32_be(ip_string: &str) -> (r: SomeIPResult<u32>)
    ensures
        r is Ok <==> is_ipv4_text(ip_string@),
        r matches Ok(v) ==> v == get_be32(octet_seq(ipv4_octets(ip_string@)), 0),
        r matches Err(e) ==> (e matches SomeIPError::InvalidIpAddress(m) && m@ == ip_string@),
{
    match ipv4_parse(ip_string) {
        Some(o) => Ok(((o.0 as u32) << 24u32) | ((o.1 as u32) << 16u32) | ((o.2 as u32) << 8u32) | (
        o.3 as u32)),
        None => Err(SomeIPError::InvalidIpAddress(ip_string.to_owned())),
    }
}

/// The number of the IPv4 address written in `ip_string`, its octets read
/// in the target's byte order; the contract states only that it is one of
/// the two orders.
pub fn ip_string_to_u32_ne(ip_string: &str) -> (r: SomeIPResult<u32>)
    ensures
        r is Ok <==> is_ipv4_text(ip_string@),
        r matches Ok(v) ==> (v == get_be32(octet_seq(ipv4_octets(ip_string@)), 0) || v == get_le32(
            octet_seq(ipv4_octets(ip_string@)),
            0,
        )),
        r matches Err(e) ==> (e matches SomeIPError::InvalidIpAddress(m) && m@ == ip_string@),
{
    match ipv4_parse(ip_string) {
        Some(o) => {
            let b: [u8; 4] = [o.0, o.1, o.2, o.3];
            assert(b@ =~= octet_seq(o));
            Ok(u32_from_ne_bytes(b))
        },
        None => Err(SomeIPError::InvalidIpAddress(ip_string.to_owned())),
    }
}

/// The octets of a big-endian address number.
pub open spec fn be_octets(v: u32) -> (u8, u8, u8, u8) {
    let b = be32(v);
    (b[0], b[1], b[2], b[3])
}

/// The dotted-decimal text of a big-endian address number.
pub fn u32_be_to_ip_string(ip_value: u32) -> (r: String)
    ensures
        r@ == ipv4_text(be_octets(ip_value)),
{
    let o = ((ip_value >> 24u32) as u8, (ip_value >> 16u32) as u8, (ip_value >> 8u32) as u8, ip_value as u8);
    ipv4_format(o)
}

/// Writing an address number as text and reading it back gives the number.
pub proof fn lemma_ip_text_roundtrip(v: u32)
    ensures
        is_ipv4_text(ipv4_text(be_octets(v))),
        get_be32(octet_seq(ipv4_octets(ipv4_text(be_octets(v)))), 0) == v,
{
    crate::someip::ipv4::lemma_ipv4_roundtrip(be_octets(v));
    let s = octet_seq(be_octets(v));
    assert(crate::wire::holds_at(s, 0, be32(v)));
    crate::wire::lemma_be32(v, s, 0);
}

/// Removing separators and lower-casing goes piece by piece.
proof fn lemma_mac_clean_concat(a: Seq<char>, b: Seq<char>)
    ensures
        mac_clean(a + b) == mac_clean(a) + mac_clean(b),
    decreases b.len(),
{
    if b.len() == 0 {
        assert(a + b =~= a);
        assert(mac_clean(a) + mac_clean(b) =~= mac_clean(a));
    } else {
        lemma_mac_clean_concat(a, b.drop_last());
        assert((a + b).drop_last() =~= a + b.drop_last());
        assert((a + b).last() == b.last());
        if is_mac_separator(b.last()) {
            assert(mac_clean(a) + mac_clean(b) =~= mac_clean(a) + mac_clean(b.drop_last()));
        } else {
            assert(mac_clean(a) + mac_clean(b) =~= (mac_clean(a) + mac_clean(b.drop_last())).push(
                ascii_lower(b.last()),
            ));
        }
    }
}

/// A hexadecimal digit of either case reads back as its value, and its
/// lower-case form is the lower-case digit.
proof fn lemma_hex_char(n: u8, upper: bool)
    requires
        n < 16,
    ensures
        is_hex_char(hex_char(n, upper)),
        hex_value(hex_char(n, upper)) == n,
        ascii_lower(hex_char(n, upper)) == hex_char(n, false),
        !is_mac_separator(hex_char(n, upper)),
        hex_char(n, upper) <= '\u{7f}',
        !crate::text::is_unicode_space(hex_char(n, upper)),
{
}

/// One character, cleaned.
proof fn lemma_mac_clean_char(c: char)
    ensures
        mac_clean(seq![c]) == (if is_mac_separator(c) {
            Seq::<char>::empty()
        } else {
            seq![ascii_lower(c)]
        }),
{
    reveal_with_fuel(mac_clean, 2);
    assert(seq![c].drop_last() =~= Seq::<char>::empty());
    assert(Seq::<char>::empty().push(ascii_lower(c)) =~= seq![ascii_lower(c)]);
}

/// Two hexadecimal digits of a byte, cleaned, read back as the byte.
proof fn lemma_hex2_clean(b: u8, upper: bool)
    ensures
        mac_clean(hex2(b, upper)) == hex2(b, false),
        hex_pair_ok(hex2(b, false)[0], hex2(b, false)[1]),
        hex_pair_value(hex2(b, false)[0], hex2(b, false)[1]) == b,
{
    lemma_hex_char(b / 16, upper);
    lemma_hex_char(b % 16, upper);
    lemma_hex_char(b / 16, false);
    lemma_hex_char(b % 16, false);
    let h = hex2(b, upper);
    lemma_mac_clean_char(h[0]);
    lemma_mac_clean_char(h[1]);
    assert(h =~= seq![h[0]] + seq![h[1]]);
    lemma_mac_clean_concat(seq![h[0]], seq![h[1]]);
    assert(mac_clean(hex2(b, upper)) =~= hex2(b, false));
}

/// Cleaning a separator and the digits of a byte after `p` appends the
/// byte's lower-case digits.
proof fn lemma_clean_step(p: Seq<char>, sep: char, x: u8, upper: bool)
    requires
        is_mac_separator(sep),
    ensures
        mac_clean(p + seq![sep] + hex2(x, upper)) == mac_clean(p) + hex2(x, false),
{
    lemma_mac_clean_concat(p + seq![sep], hex2(x, upper));
    lemma_mac_clean_concat(p, seq![sep]);
    lemma_mac_clean_char(sep);
    lemma_hex2_clean(x, upper);
    assert(mac_clean(p) + Seq::<char>::empty() =~= mac_clean(p));
}

/// The MAC text of six bytes, with one of the separators that the parser
/// removes, reads back as the same six bytes.
#[verifier::spinoff_prover]
#[verifier::rlimit(40)]
pub proof fn lemma_mac_text_roundtrip(b: Seq<u8>, sep: char, upper: bool)
    requires
        b.len() == 6,
        is_mac_separator(sep),
    ensures
        mac_text_ok(mac_text(b, sep, upper)),
        mac_text_bytes(mac_text(b, sep, upper)) == b,
{
    let t = mac_text(b, sep, upper);
    let s = seq![sep];
    let h0 = hex2(b[0], upper);
    let p1 = h0 + s + hex2(b[1], upper);
    let p2 = p1 + s + hex2(b[2], upper);
    let p3 = p2 + s + hex2(b[3], upper);
    let p4 = p3 + s + hex2(b[4], upper);
    lemma_hex2_clean(b[0], upper);
    lemma_clean_step(h0, sep, b[1], upper);
    lemma_clean_step(p1, sep, b[2], upper);
    lemma_clean_step(p2, sep, b[3], upper);
    lemma_clean_step(p3, sep, b[4], upper);
    lemma_clean_step(p4, sep, b[5], upper);
    assert(t == p4 + s + hex2(b[5], upper));
    let f0 = hex2(b[0], false);
    let f1 = hex2(b[1], false);
    let f2 = hex2(b[2], false);
    let f3 = hex2(b[3], false);
    let f4 = hex2(b[4], false);
    let f5 = hex2(b[5], false);
    let c = mac_clean(t);
    assert(c =~= seq![f0[0], f0[1], f1[0], f1[1], f2[0], f2[1], f3[0], f3[1], f4[0], f4[1], f5[0], f5[1]]);
    lemma_hex2_clean(b[1], upper);
    lemma_hex2_clean(b[2], upper);
    lemma_hex2_clean(b[3], upper);
    lemma_hex2_clean(b[4], upper);
    lemma_hex2_clean(b[5], upper);
    assert forall|k: int| 0 <= k < 6 implies #[trigger] hex_pair_ok(c[2 * k], c[2 * k + 1]) by {
        if k == 0 {
        } else if k == 1 {
        } else if k == 2 {
        } else if k == 3 {
        } else if k == 4 {
        } else {
        }
    }
    lemma_mac_text_plain(b, sep, upper);
    assert(mac_text_bytes(t) =~= b);
}

/// The MAC text of six bytes is ASCII and has no white space at its ends.
proof fn lemma_mac_text_plain(b: Seq<u8>, sep: char, upper: bool)
    requires
        b.len() == 6,
        is_mac_separator(sep),
    ensures
        trim_chars(mac_text(b, sep, upper)) == mac_text(b, sep, upper),
        all_ascii(mac_text(b, sep, upper)),
{
    let t = mac_text(b, sep, upper);
    let h = |k: int| hex2(b[k], upper);
    assert(t =~= seq![
        h(0)[0], h(0)[1], sep, h(1)[0], h(1)[1], sep, h(2)[0], h(2)[1], sep, h(3)[0], h(3)[1], sep,
        h(4)[0], h(4)[1], sep, h(5)[0], h(5)[1],
    ]);
    assert forall|k: int| 0 <= k < 6 implies #[trigger] h(k)[0] <= '\u{7f}' && h(k)[1] <= '\u{7f}'
        && !crate::text::is_unicode_space(h(k)[0]) && !crate::text::is_unicode_space(h(k)[1]) by {
        lemma_hex_char(b[k] / 16, upper);
        lemma_hex_char(b[k] % 16, upper);
    }
    assert(h(0)[0] <= '\u{7f}');
    assert(h(5)[1] <= '\u{7f}');
    assert(!crate::text::is_unicode_space(t[0]));
    assert(!crate::text::is_unicode_space(t[16]));
    assert forall|i: int| 0 <= i < t.len() implies t[i] <= '\u{7f}' by {
        let k = i / 3;
        assert(h(k)[0] <= '\u{7f}');
    }
}

/// The MAC text of a number reads back as its low 48 bits.
pub proof fn lemma_mac_u64_roundtrip(v: u64)
    ensures
        mac_text_ok(mac_text(mac_bytes_of(v), ':', false)),
        mac_value(mac_text_bytes(mac_text(mac_bytes_of(v), ':', false))) == v % 0x1_0000_0000_0000,
{
    lemma_mac_text_roundtrip(mac_bytes_of(v), ':', false);
    let a0 = (v >> 40u64) as u8;
    let a1 = (v >> 32u64) as u8;
    let a2 = (v >> 24u64) as u8;
    let a3 = (v >> 16u64) as u8;
    let a4 = (v >> 8u64) as u8;
    let a5 = v as u8;
    assert(a0 * 0x10000000000 + a1 * 0x100000000 + a2 * 0x1000000 + a3 * 0x10000 + a4 * 0x100 + a5
        == v % 0x1_0000_0000_0000) by (bit_vector)
        requires
            a0 == (v >> 40u64) as u8,
            a1 == (v >> 32u64) as u8,
            a2 == (v >> 24u64) as u8,
            a3 == (v >> 16u64) as u8,
            a4 == (v >> 8u64) as u8,
            a5 == v as u8,
    ;
}

} // verus!
