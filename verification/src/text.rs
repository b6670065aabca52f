//! Character-level helpers for the text formats of the crate.
use vstd::prelude::*;
use vstd::string::StrSliceExecFns;

verus! {

/// `String::from_iter` over characters: the string made of `cs`, in order.
#[verifier::external_body]
pub(crate) fn string_from_chars(cs: Vec<char>) -> (r: String)
    ensures
        r@ == cs@,
{
    String::from_iter(cs)
}

/// The characters of `s`, in order.
pub fn str_chars(s: &str) -> (r: Vec<char>)
    ensures
        r@ == s@,
{
    let n = s.unicode_len();
    let mut r: Vec<char> = Vec::new();
    let mut i: usize = 0;
    while i < n
        invariant
            n == s@.len(),
            i <= n,
            r@ == s@.subrange(0, i as int),
        decreases n - i,
    {
        r.push(s.get_char(i));
        i = i + 1;
        assert(s@.subrange(0, i as int) =~= s@.subrange(0, i - 1) + seq![s@[i - 1]]);
    }
    assert(s@.subrange(0, n as int) =~= s@);
    r
}

/// The lower-case hexadecimal digit, or the upper-case one, for `n < 16`.
pub open spec fn hex_char(n: u8, upper: bool) -> char {
    if n < 10 {
        ((48 + n) as u8) as char
    } else if upper {
        ((55 + n) as u8) as char
    } else {
        ((87 + n) as u8) as char
    }
}

/// The value of a hexadecimal digit of either case.
pub open spec fn hex_value(c: char) -> u8 {
    if '0' <= c <= '9' {
        (c as u8 - 48) as u8
    } else if 'a' <= c <= 'f' {
        (c as u8 - 87) as u8
    } else {
        (c as u8 - 55) as u8
    }
}

pub open spec fn is_hex_char(c: char) -> bool {
    ('0' <= c <= '9') || ('a' <= c <= 'f') || ('A' <= c <= 'F')
}

pub open spec fn is_digit_char(c: char) -> bool {
    '0' <= c <= '9'
}

/// The two hexadecimal digits of a byte.
pub open spec fn hex2(b: u8, upper: bool) -> Seq<char> {
    seq![hex_char(b / 16, upper), hex_char(b % 16, upper)]
}

pub fn hex_digit(n: u8, upper: bool) -> (c: char)
    requires
        n < 16,
    ensures
        c == hex_char(n, upper),
{
    match n {
        0 => '0',
        1 => '1',
        2 => '2',
        3 => '3',
        4 => '4',
        5 => '5',
        6 => '6',
        7 => '7',
        8 => '8',
        9 => '9',
        10 => if upper { 'A' } else { 'a' },
        11 => if upper { 'B' } else { 'b' },
        12 => if upper { 'C' } else { 'c' },
        13 => if upper { 'D' } else { 'd' },
        14 => if upper { 'E' } else { 'e' },
        _ => if upper { 'F' } else { 'f' },
    }
}

/// The value of a hexadecimal digit of either case.
pub fn hex_digit_value(c: char) -> (r: Option<u8>)
    ensures
        r == (if is_hex_char(c) { Some(hex_value(c)) } else { None::<u8> }),
{
    if '0' <= c && c <= '9' {
        Some((c as u8) - 48)
    } else if 'a' <= c && c <= 'f' {
        Some((c as u8) - 87)
    } else if 'A' <= c && c <= 'F' {
        Some((c as u8) - 55)
    } else {
        None
    }
}

/// Characters that `char::is_whitespace` accepts (Unicode `White_Space`).
pub open spec fn is_unicode_space(c: char) -> bool {
    ('\u{9}' <= c <= '\u{d}') || c == ' ' || c == '\u{85}' || c == '\u{a0}' || c == '\u{1680}' || (
    '\u{2000}' <= c <= '\u{200a}') || c == '\u{2028}' || c == '\u{2029}' || c == '\u{202f}' || c
        == '\u{205f}' || c == '\u{3000}'
}

pub fn is_space(c: char) -> (r: bool)
    ensures
        r == is_unicode_space(c),
{
    ('\u{9}' <= c && c <= '\u{d}') || c == ' ' || c == '\u{85}' || c == '\u{a0}' || c == '\u{1680}'
        || ('\u{2000}' <= c && c <= '\u{200a}') || c == '\u{2028}' || c == '\u{2029}' || c
        == '\u{202f}' || c == '\u{205f}' || c == '\u{3000}'
}

/// `cs` without its leading and trailing white space, as `str::trim` gives it.
pub open spec fn trim_chars(cs: Seq<char>) -> Seq<char>
    decreases cs.len(),
{
    if cs.len() == 0 {
        cs
    } else if is_unicode_space(cs[0]) {
        trim_chars(cs.subrange(1, cs.len() as int))
    } else if is_unicode_space(cs[cs.len() - 1]) {
        trim_chars(cs.subrange(0, cs.len() - 1))
    } else {
        cs
    }
}

/// `str::trim` over characters.
pub fn trim(cs: &Vec<char>) -> (r: Vec<char>)
    ensures
        r@ == trim_chars(cs@),
{
    let mut lo: usize = 0;
    let mut hi: usize = cs.len();
    assert(cs@.subrange(0, cs@.len() as int) =~= cs@);
    while lo < hi && (is_space(cs[lo]) || is_space(cs[hi - 1]))
        invariant
            lo <= hi <= cs@.len(),
            trim_chars(cs@.subrange(lo as int, hi as int)) == trim_chars(cs@),
        decreases hi - lo,
    {
        let ghost w = cs@.subrange(lo as int, hi as int);
        if is_space(cs[lo]) {
            assert(w.subrange(1, w.len() as int) =~= cs@.subrange(lo + 1, hi as int));
            lo = lo + 1;
        } else {
            assert(w.subrange(0, w.len() - 1) =~= cs@.subrange(lo as int, hi - 1));
            hi = hi - 1;
        }
    }
    let mut r: Vec<char> = Vec::new();
    let mut k: usize = lo;
    while k < hi
        invariant
            lo <= k <= hi <= cs@.len(),
            r@ == cs@.subrange(lo as int, k as int),
        decreases hi - k,
    {
        r.push(cs[k]);
        k = k + 1;
        assert(cs@.subrange(lo as int, k as int) =~= cs@.subrange(lo as int, k - 1) + seq![cs@[k - 1]]);
    }
    r
}

/// The decimal digits of `n`, without leading zeros.
pub open spec fn decimal_text(n: nat) -> Seq<char>
    decreases n,
{
    if n < 10 {
        seq![((48 + n) as u8) as char]
    } else {
        decimal_text(n / 10) + seq![((48 + n % 10) as u8) as char]
    }
}

/// The decimal digits of `n`, without leading zeros.
pub fn decimal_chars(n: u64) -> (r: Vec<char>)
    ensures
        r@ == decimal_text(n as nat),
    decreases n,
{
    let d = hex_digit((n % 10) as u8, false);
    if n < 10 {
        let mut v: Vec<char> = Vec::new();
        v.push(d);
        v
    } else {
        let mut v = decimal_chars(n / 10);
        v.push(d);
        v
    }
}

/// The characters of `s` followed by those of `t`.
pub fn push_str_chars(v: &mut Vec<char>, t: &str)
    ensures
        final(v)@ == old(v)@ + t@,
{
    let cs = str_chars(t);
    let mut i: usize = 0;
    while i < cs.len()
        invariant
            i <= cs@.len(),
            cs@ == t@,
            v@ == old(v)@ + cs@.subrange(0, i as int),
        decreases cs@.len() - i,
    {
        v.push(cs[i]);
        i = i + 1;
        assert(cs@.subrange(0, i as int) =~= cs@.subrange(0, i - 1) + seq![cs@[i - 1]]);
    }
    assert(cs@.subrange(0, cs@.len() as int) =~= cs@);
}

/// Appends the characters of `t`.
pub fn push_chars(v: &mut Vec<char>, t: &Vec<char>)
    ensures
        final(v)@ == old(v)@ + t@,
{
    let mut i: usize = 0;
    while i < t.len()
        invariant
            i <= t@.len(),
            v@ == old(v)@ + t@.subrange(0, i as int),
        decreases t@.len() - i,
    {
        v.push(t[i]);
        i = i + 1;
        assert(t@.subrange(0, i as int) =~= t@.subrange(0, i - 1) + seq![t@[i - 1]]);
    }
    assert(t@.subrange(0, t@.len() as int) =~= t@);
}

} // verus!
