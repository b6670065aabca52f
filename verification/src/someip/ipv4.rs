//! IPv4 addresses in dotted-decimal text: four octets from 0 to 255, in
//! decimal without leading zeros, separated by dots.
use vstd::prelude::*;
use crate::text::{decimal_chars, decimal_text, is_digit_char, push_chars, str_chars, string_from_chars};

verus! {

/// The text of the address with octets `a.b.c.d`.
pub open spec fn ipv4_text(o: (u8, u8, u8, u8)) -> Seq<char> {
    decimal_text(o.0 as nat) + seq!['.'] + decimal_text(o.1 as nat) + seq!['.'] + decimal_text(
        o.2 as nat,
    ) + seq!['.'] + decimal_text(o.3 as nat)
}

/// `s` is the text of an IPv4 address.
pub open spec fn is_ipv4_text(s: Seq<char>) -> bool {
    exists|o: (u8, u8, u8, u8)| #[trigger] ipv4_text(o) == s
}

/// The octets of the address that `s` writes.
pub open spec fn ipv4_octets(s: Seq<char>) -> (u8, u8, u8, u8) {
    choose|o: (u8, u8, u8, u8)| #[trigger] ipv4_text(o) == s
}

/// The value of a run of decimal digits.
pub open spec fn digits_value(t: Seq<char>) -> nat
    decreases t.len(),
{
    if t.len() == 0 {
        0
    } else {
        digits_value(t.drop_last()) * 10 + digit_of(t.last())
    }
}

/// The value of a digit character.
pub open spec fn digit_of(c: char) -> nat {
    ((c as nat) - 48) as nat
}

pub open spec fn all_digits(t: Seq<char>) -> bool {
    forall|i: int| 0 <= i < t.len() ==> is_digit_char(#[trigger] t[i])
}

/// A run of one to three digits without a leading zero whose value is at
/// most 255: the form of one octet.
pub open spec fn octet_form(t: Seq<char>) -> bool {
    &&& 1 <= t.len() <= 3
    &&& all_digits(t)
    &&& t.len() > 1 ==> t[0] != '0'
    &&& digits_value(t) <= 255
}

/// The end of the run of digits that starts at `i`.
pub open spec fn digit_run_end(s: Seq<char>, i: int) -> int
    decreases s.len() - i,
{
    if i < 0 || i >= s.len() || !is_digit_char(s[i]) {
        i
    } else {
        digit_run_end(s, i + 1)
    }
}

proof fn lemma_digit_char(d: nat)
    requires
        d < 10,
    ensures
        is_digit_char(digit_char(d)),
        digit_of(digit_char(d)) == d,
        forall|c: char| is_digit_char(c) && digit_of(c) == d ==> c == digit_char(d),
{
}

/// The character of the digit `d`.
pub open spec fn digit_char(d: nat) -> char {
    ((48 + d) as u8) as char
}

/// The value of up to three digits, read from the left.
proof fn lemma_digits_value3(t: Seq<char>)
    requires
        1 <= t.len() <= 3,
    ensures
        t.len() == 1 ==> digits_value(t) == digit_of(t[0]),
        t.len() == 2 ==> digits_value(t) == digit_of(t[0]) * 10 + digit_of(t[1]),
        t.len() == 3 ==> digits_value(t) == digit_of(t[0]) * 100 + digit_of(t[1]) * 10
            + digit_of(t[2]),
{
    reveal_with_fuel(digits_value, 4);
    if t.len() >= 2 {
        assert(t.drop_last().drop_last() =~= t.subrange(0, t.len() - 2));
    }
    if t.len() == 3 {
        assert(t.drop_last().drop_last().drop_last() =~= Seq::<char>::empty());
        assert(t.drop_last().drop_last() =~= seq![t[0]]);
        assert(t.drop_last() =~= seq![t[0], t[1]]);
    } else if t.len() == 2 {
        assert(t.drop_last().drop_last() =~= Seq::<char>::empty());
        assert(t.drop_last() =~= seq![t[0]]);
    } else {
        assert(t.drop_last() =~= Seq::<char>::empty());
    }
}

/// The decimal text of an octet, digit by digit.
proof fn lemma_octet_digits(v: u8)
    ensures
        v < 10 ==> decimal_text(v as nat) == seq![digit_char(v as nat)],
        10 <= v < 100 ==> decimal_text(v as nat) == seq![
            digit_char((v / 10) as nat),
            digit_char((v % 10) as nat),
        ],
        100 <= v ==> decimal_text(v as nat) == seq![
            digit_char((v / 100) as nat),
            digit_char(((v / 10) % 10) as nat),
            digit_char((v % 10) as nat),
        ],
{
    reveal_with_fuel(decimal_text, 3);
    if v >= 100 {
        assert((v / 10) / 10 == v / 100);
        assert(decimal_text((v / 10) as nat) =~= seq![
            digit_char((v / 100) as nat),
            digit_char(((v / 10) % 10) as nat),
        ]);
    }
}

/// The decimal text of an octet has the form of one.
proof fn lemma_octet_text(v: u8)
    ensures
        octet_form(decimal_text(v as nat)),
        digits_value(decimal_text(v as nat)) == v,
{
    let t = decimal_text(v as nat);
    lemma_octet_digits(v);
    lemma_digit_char(v as nat % 10);
    lemma_digit_char((v as nat / 10) % 10);
    if v < 100 {
        lemma_digit_char(v as nat / 10);
    }
    lemma_digit_char(v as nat / 100);
    lemma_digits_value3(t);
    assert(all_digits(t));
}

/// A run in the form of an octet is the decimal text of its value.
proof fn lemma_octet_form_text(t: Seq<char>)
    requires
        octet_form(t),
    ensures
        decimal_text(digits_value(t)) == t,
{
    lemma_digits_value3(t);
    let v = digits_value(t);
    assert(v <= 255);
    lemma_octet_digits(v as u8);
    assert(is_digit_char(t[0]));
    if t.len() >= 2 {
        assert(is_digit_char(t[1]));
    }
    if t.len() >= 3 {
        assert(is_digit_char(t[2]));
    }
    let d0 = digit_of(t[0]);
    lemma_digit_char(d0);
    if t.len() == 1 {
        assert(digit_char(d0) == t[0]);
        assert(decimal_text(v) =~= t);
    } else if t.len() == 2 {
        let d1 = digit_of(t[1]);
        lemma_digit_char(d1);
        assert(v / 10 == d0 && v % 10 == d1);
        assert(digit_char(d0) == t[0]);
        assert(digit_char(d1) == t[1]);
        assert(decimal_text(v) =~= t);
    } else {
        let d1 = digit_of(t[1]);
        let d2 = digit_of(t[2]);
        lemma_digit_char(d1);
        lemma_digit_char(d2);
        assert(v / 100 == d0 && (v / 10) % 10 == d1 && v % 10 == d2);
        assert(digit_char(d0) == t[0]);
        assert(digit_char(d1) == t[1]);
        assert(digit_char(d2) == t[2]);
        assert(decimal_text(v) =~= t);
    }
}

/// The run at `p` ends at `q` when all between are digits and `q` is not.
proof fn lemma_run_end_at(s: Seq<char>, p: int, q: int)
    requires
        0 <= p <= q <= s.len(),
        forall|k: int| p <= k < q ==> is_digit_char(#[trigger] s[k]),
        q == s.len() || !is_digit_char(s[q]),
    ensures
        digit_run_end(s, p) == q,
    decreases q - p,
{
    if p < q {
        assert(is_digit_char(s[p]));
        lemma_run_end_at(s, p + 1, q);
    }
}

/// Where each octet's digits start and end in the text of an address, and
/// that dots separate them.
pub open spec fn octet_bounds(o: (u8, u8, u8, u8)) -> Seq<(int, int)> {
    let l0 = decimal_text(o.0 as nat).len() as int;
    let l1 = decimal_text(o.1 as nat).len() as int;
    let l2 = decimal_text(o.2 as nat).len() as int;
    let l3 = decimal_text(o.3 as nat).len() as int;
    seq![
        (0, l0),
        (l0 + 1, l0 + 1 + l1),
        (l0 + l1 + 2, l0 + l1 + 2 + l2),
        (l0 + l1 + l2 + 3, l0 + l1 + l2 + 3 + l3),
    ]
}

/// The text of an address is its four octets' digit runs, in the form of
/// octets, separated by single dots.
proof fn lemma_ipv4_structure(o: (u8, u8, u8, u8))
    ensures
        ({
            let s = ipv4_text(o);
            let b = octet_bounds(o);
            &&& b[3].1 == s.len()
            &&& forall|k: int| 0 <= k < 3 ==> s[#[trigger] b[k].1] == '.' && b[k + 1].0 == b[k].1 + 1
            &&& b[0].0 == 0
            &&& digit_run_end(s, b[0].0) == b[0].1 && s.subrange(b[0].0, b[0].1) == decimal_text(o.0 as nat)
            &&& digit_run_end(s, b[1].0) == b[1].1 && s.subrange(b[1].0, b[1].1) == decimal_text(o.1 as nat)
            &&& digit_run_end(s, b[2].0) == b[2].1 && s.subrange(b[2].0, b[2].1) == decimal_text(o.2 as nat)
            &&& digit_run_end(s, b[3].0) == b[3].1 && s.subrange(b[3].0, b[3].1) == decimal_text(o.3 as nat)
        }),
{
    let s = ipv4_text(o);
    let b = octet_bounds(o);
    let t0 = decimal_text(o.0 as nat);
    let t1 = decimal_text(o.1 as nat);
    let t2 = decimal_text(o.2 as nat);
    let t3 = decimal_text(o.3 as nat);
    lemma_octet_text(o.0);
    lemma_octet_text(o.1);
    lemma_octet_text(o.2);
    lemma_octet_text(o.3);
    assert(s.subrange(b[0].0, b[0].1) =~= t0);
    assert(s.subrange(b[1].0, b[1].1) =~= t1);
    assert(s.subrange(b[2].0, b[2].1) =~= t2);
    assert(s.subrange(b[3].0, b[3].1) =~= t3);
    assert(s[b[0].1] == '.');
    assert(s[b[1].1] == '.');
    assert(s[b[2].1] == '.');
    assert forall|k: int| b[0].0 <= k < b[0].1 implies is_digit_char(#[trigger] s[k]) by {
        assert(s[k] == t0[k]);
    }
    assert forall|k: int| b[1].0 <= k < b[1].1 implies is_digit_char(#[trigger] s[k]) by {
        assert(s[k] == t1[k - b[1].0]);
    }
    assert forall|k: int| b[2].0 <= k < b[2].1 implies is_digit_char(#[trigger] s[k]) by {
        assert(s[k] == t2[k - b[2].0]);
    }
    assert forall|k: int| b[3].0 <= k < b[3].1 implies is_digit_char(#[trigger] s[k]) by {
        assert(s[k] == t3[k - b[3].0]);
    }
    lemma_run_end_at(s, b[0].0, b[0].1);
    lemma_run_end_at(s, b[1].0, b[1].1);
    lemma_run_end_at(s, b[2].0, b[2].1);
    lemma_run_end_at(s, b[3].0, b[3].1);
}

/// Two addresses with the same text are the same address.
pub proof fn lemma_ipv4_text_injective(o: (u8, u8, u8, u8), p: (u8, u8, u8, u8))
    requires
        ipv4_text(o) == ipv4_text(p),
    ensures
        o == p,
{
    let s = ipv4_text(o);
    lemma_ipv4_structure(o);
    lemma_ipv4_structure(p);
    lemma_octet_text(o.0);
    lemma_octet_text(o.1);
    lemma_octet_text(o.2);
    lemma_octet_text(o.3);
    lemma_octet_text(p.0);
    lemma_octet_text(p.1);
    lemma_octet_text(p.2);
    lemma_octet_text(p.3);
    let bo = octet_bounds(o);
    let bp = octet_bounds(p);
    assert(bo[0].1 == bp[0].1);
    assert(o.0 == p.0);
    assert(bo[1].1 == bp[1].1);
    assert(o.1 == p.1);
    assert(bo[2].1 == bp[2].1);
    assert(o.2 == p.2);
    assert(o.3 == p.3);
}

/// The octet whose digit run starts at `start`, and where the run ends:
/// `None` where the run is not in the form of an octet.
fn parse_octet(cs: &Vec<char>, start: usize) -> (r: Option<(u8, usize)>)
    requires
        start <= cs@.len(),
    ensures
        ({
            let e = digit_run_end(cs@, start as int);
            let t = cs@.subrange(start as int, e);
            match r {
                Some((v, end)) => end == e && start < end <= cs@.len() && octet_form(t) && v
                    == digits_value(t),
                None => !octet_form(t),
            }
        }),
{
    let mut i = start;
    let mut value: u32 = 0;
    while i < cs.len() && '0' <= cs[i] && cs[i] <= '9' && i - start < 4
        invariant
            start <= i <= cs@.len(),
            i - start <= 4,
            digit_run_end(cs@, i as int) == digit_run_end(cs@, start as int),
            all_digits(cs@.subrange(start as int, i as int)),
            value == digits_value(cs@.subrange(start as int, i as int)),
            value < (if i - start == 0 {
                1int
            } else if i - start == 1 {
                10
            } else if i - start == 2 {
                100
            } else if i - start == 3 {
                1000
            } else {
                10000
            }),
        decreases cs@.len() - i,
    {
        let d = (cs[i] as u32) - 48;
        let ghost pre = cs@.subrange(start as int, i as int);
        assert(cs@.subrange(start as int, i + 1).drop_last() =~= pre);
        value = value * 10 + d;
        i = i + 1;
    }
    let ghost e = digit_run_end(cs@, start as int);
    let ghost t = cs@.subrange(start as int, e);
    let n = i - start;
    if n > 3 {
        proof {
            lemma_run_end_ge(cs@, i as int, i as int);
            lemma_run_end_lower(cs@, i as int);
        }
        return None;
    }
    assert(digit_run_end(cs@, i as int) == i);
    assert(t =~= cs@.subrange(start as int, i as int));
    if n == 0 || (n > 1 && cs[start] == '0') || value > 255 {
        proof {
            if n > 1 {
                assert(t[0] == cs@[start as int]);
            }
        }
        return None;
    }
    Some((value as u8, i))
}

/// The run that starts at `i` ends at or after `j` when all between are
/// digits.
proof fn lemma_run_end_ge(s: Seq<char>, i: int, j: int)
    requires
        0 <= i <= j <= s.len(),
        forall|k: int| i <= k < j ==> is_digit_char(#[trigger] s[k]),
    ensures
        digit_run_end(s, i) >= j,
    decreases j - i,
{
    if i < j {
        assert(is_digit_char(s[i]));
        lemma_run_end_ge(s, i + 1, j);
    } else {
        lemma_run_end_lower(s, i);
    }
}

/// A run ends no earlier than it starts.
proof fn lemma_run_end_lower(s: Seq<char>, i: int)
    requires
        0 <= i,
    ensures
        digit_run_end(s, i) >= i,
        i <= s.len() ==> digit_run_end(s, i) <= s.len(),
    decreases s.len() - i,
{
    if i < s.len() && is_digit_char(s[i]) {
        lemma_run_end_lower(s, i + 1);
    }
}

/// The octets that `cs` writes as an address, where it writes one.
fn parse_ipv4(cs: &Vec<char>) -> (r: Option<(u8, u8, u8, u8)>)
    ensures
        r matches Some(o) ==> ipv4_text(o) == cs@,
        r is None ==> !is_ipv4_text(cs@),
{
    let len = cs.len();
    let r0 = parse_octet(cs, 0);
    let (a, e0) = match r0 {
        Some(x) => x,
        None => {
            proof {
                assert forall|o: (u8, u8, u8, u8)| #[trigger] ipv4_text(o) != cs@ by {
                    if ipv4_text(o) == cs@ {
                        lemma_ipv4_structure(o);
                        lemma_octet_text(o.0);
                    }
                }
            }
            return None;
        },
    };
    if e0 >= len || cs[e0] != '.' {
        proof {
            assert forall|o: (u8, u8, u8, u8)| #[trigger] ipv4_text(o) != cs@ by {
                if ipv4_text(o) == cs@ {
                    lemma_ipv4_structure(o);
                    assert(cs@[octet_bounds(o)[0].1] == '.');
                }
            }
        }
        return None;
    }
    let r1 = parse_octet(cs, e0 + 1);
    let (b, e1) = match r1 {
        Some(x) => x,
        None => {
            proof {
                assert forall|o: (u8, u8, u8, u8)| #[trigger] ipv4_text(o) != cs@ by {
                    if ipv4_text(o) == cs@ {
                        lemma_ipv4_structure(o);
                        lemma_octet_text(o.1);
                        assert(cs@[octet_bounds(o)[0].1] == '.');
                    }
                }
            }
            return None;
        },
    };
    if e1 >= len || cs[e1] != '.' {
        proof {
            assert forall|o: (u8, u8, u8, u8)| #[trigger] ipv4_text(o) != cs@ by {
                if ipv4_text(o) == cs@ {
                    lemma_ipv4_structure(o);
                    assert(cs@[octet_bounds(o)[0].1] == '.');
                    assert(cs@[octet_bounds(o)[1].1] == '.');
                }
            }
        }
        return None;
    }
    let r2 = parse_octet(cs, e1 + 1);
    let (c, e2) = match r2 {
        Some(x) => x,
        None => {
            proof {
                assert forall|o: (u8, u8, u8, u8)| #[trigger] ipv4_text(o) != cs@ by {
                    if ipv4_text(o) == cs@ {
                        lemma_ipv4_structure(o);
                        lemma_octet_text(o.2);
                        assert(cs@[octet_bounds(o)[0].1] == '.');
                        assert(cs@[octet_bounds(o)[1].1] == '.');
                    }
                }
            }
            return None;
        },
    };
    if e2 >= len || cs[e2] != '.' {
        proof {
            assert forall|o: (u8, u8, u8, u8)| #[trigger] ipv4_text(o) != cs@ by {
                if ipv4_text(o) == cs@ {
                    lemma_ipv4_structure(o);
                    assert(cs@[octet_bounds(o)[0].1] == '.');
                    assert(cs@[octet_bounds(o)[1].1] == '.');
                    assert(cs@[octet_bounds(o)[2].1] == '.');
                }
            }
        }
        return None;
    }
    let r3 = parse_octet(cs, e2 + 1);
    let (d, e3) = match r3 {
        Some(x) => x,
        None => {
            proof {
                assert forall|o: (u8, u8, u8, u8)| #[trigger] ipv4_text(o) != cs@ by {
                    if ipv4_text(o) == cs@ {
                        lemma_ipv4_structure(o);
                        lemma_octet_text(o.3);
                        assert(cs@[octet_bounds(o)[0].1] == '.');
                        assert(cs@[octet_bounds(o)[1].1] == '.');
                        assert(cs@[octet_bounds(o)[2].1] == '.');
                    }
                }
            }
            return None;
        },
    };
    if e3 != len {
        proof {
            assert forall|o: (u8, u8, u8, u8)| #[trigger] ipv4_text(o) != cs@ by {
                if ipv4_text(o) == cs@ {
                    lemma_ipv4_structure(o);
                    lemma_octet_text(o.0);
                    lemma_octet_text(o.1);
                    lemma_octet_text(o.2);
                    lemma_octet_text(o.3);
                    assert(cs@[octet_bounds(o)[0].1] == '.');
                    assert(cs@[octet_bounds(o)[1].1] == '.');
                    assert(cs@[octet_bounds(o)[2].1] == '.');
                }
            }
        }
        return None;
    }
    proof {
        let t0 = cs@.subrange(0, e0 as int);
        let t1 = cs@.subrange(e0 + 1, e1 as int);
        let t2 = cs@.subrange(e1 + 1, e2 as int);
        let t3 = cs@.subrange(e2 + 1, e3 as int);
        lemma_octet_form_text(t0);
        lemma_octet_form_text(t1);
        lemma_octet_form_text(t2);
        lemma_octet_form_text(t3);
        assert(decimal_text(a as nat) == t0);
        assert(decimal_text(b as nat) == t1);
        assert(decimal_text(c as nat) == t2);
        assert(decimal_text(d as nat) == t3);
        assert(cs@.subrange(0, e1 as int) =~= t0 + seq!['.'] + t1);
        assert(cs@.subrange(0, e2 as int) =~= cs@.subrange(0, e1 as int) + seq!['.'] + t2);
        assert(cs@ =~= cs@.subrange(0, e2 as int) + seq!['.'] + t3);
    }
    Some((a, b, c, d))
}

/// The octets of an address in dotted-decimal text, where `text` is one.
pub fn ipv4_parse(text: &str) -> (r: Option<(u8, u8, u8, u8)>)
    ensures
        r == (if is_ipv4_text(text@) {
            Some(ipv4_octets(text@))
        } else {
            None::<(u8, u8, u8, u8)>
        }),
{
    let cs = str_chars(text);
    let r = parse_ipv4(&cs);
    proof {
        if let Some(o) = r {
            lemma_ipv4_text_injective(o, ipv4_octets(text@));
        }
    }
    r
}

/// The dotted-decimal text of an address.
pub fn ipv4_format(o: (u8, u8, u8, u8)) -> (r: String)
    ensures
        r@ == ipv4_text(o),
{
    let mut v: Vec<char> = Vec::new();
    let t = decimal_chars(o.0 as u64);
    push_chars(&mut v, &t);
    v.push('.');
    let t = decimal_chars(o.1 as u64);
    push_chars(&mut v, &t);
    v.push('.');
    let t = decimal_chars(o.2 as u64);
    push_chars(&mut v, &t);
    v.push('.');
    let t = decimal_chars(o.3 as u64);
    push_chars(&mut v, &t);
    string_from_chars(v)
}

/// The text of an address reads back as that address.
pub proof fn lemma_ipv4_roundtrip(o: (u8, u8, u8, u8))
    ensures
        is_ipv4_text(ipv4_text(o)),
        ipv4_octets(ipv4_text(o)) == o,
{
    assert(is_ipv4_text(ipv4_text(o)));
    lemma_ipv4_text_injective(o, ipv4_octets(ipv4_text(o)));
}

} // verus!
