//! Whether a client's version string is recent enough.
//!
//! The string is split at each `.`; each part is read as a number from 0 to
//! 255 (an optional `+`, then decimal digits), and a part that is missing or
//! is not such a number counts as 0. Every component must be at least the
//! server's.

use vstd::prelude::*;

verus! {

pub const VERSION_MAJOR: u8 = 0;

pub const VERSION_MINOR: u8 = 2;

pub const VERSION_PATCH: u8 = 0;

/// The parts of `s` between dots.
pub open spec fn split_dots(s: Seq<char>) -> Seq<Seq<char>>
    decreases s.len(),
{
    if s.len() == 0 {
        seq![Seq::empty()]
    } else {
        let p = split_dots(s.drop_last());
        if s.last() == '.' {
            p.push(Seq::empty())
        } else {
            p.update(p.len() - 1, p.last().push(s.last()))
        }
    }
}

pub open spec fn is_digit(c: char) -> bool {
    '0' <= c && c <= '9'
}

/// The value of a string of decimal digits.
pub open spec fn digits_value(d: Seq<char>) -> nat
    decreases d.len(),
{
    if d.len() == 0 {
        0
    } else {
        digits_value(d.drop_last()) * 10 + (d.last() as u32 - '0' as u32) as nat
    }
}

/// A part without its leading `+`, if it has one.
pub open spec fn unsigned_part(p: Seq<char>) -> Seq<char> {
    if p.len() > 0 && p[0] == '+' {
        p.drop_first()
    } else {
        p
    }
}

pub open spec fn all_digits(d: Seq<char>) -> bool {
    forall|i: int| 0 <= i < d.len() ==> is_digit(#[trigger] d[i])
}

/// The number a part stands for, if it is one from 0 to 255.
pub open spec fn parse_u8(p: Seq<char>) -> Option<u8> {
    let d = unsigned_part(p);
    if d.len() > 0 && all_digits(d) && digits_value(d) <= 255 {
        Some(digits_value(d) as u8)
    } else {
        None
    }
}

/// Component `i` of version string `s`.
pub open spec fn component(s: Seq<char>, i: int) -> u8 {
    let parts = split_dots(s);
    if i < parts.len() {
        match parse_u8(parts[i]) {
            Some(v) => v,
            None => 0,
        }
    } else {
        0
    }
}

/// Whether every component of `s` reaches the server's.
pub open spec fn version_supported(s: Seq<char>) -> bool {
    component(s, 0) >= VERSION_MAJOR && component(s, 1) >= VERSION_MINOR && component(s, 2)
        >= VERSION_PATCH
}

proof fn lemma_split_nonempty(s: Seq<char>)
    ensures
        split_dots(s).len() >= 1,
    decreases s.len(),
{
    if s.len() > 0 {
        lemma_split_nonempty(s.drop_last());
    }
}

/// The number in `p`, or 0 when `p` is not a number from 0 to 255.
pub fn part_value(p: &Vec<char>) -> (r: u8)
    ensures
        r == match parse_u8(p@) {
            Some(v) => v,
            None => 0,
        },
{
    let start: usize = if p.len() > 0 && p[0] == '+' {
        1
    } else {
        0
    };
    let ghost d = unsigned_part(p@);
    assert(d =~= p@.subrange(start as int, p@.len() as int));
    if start >= p.len() {
        return 0;
    }
    let mut v: u32 = 0;
    let mut k: usize = start;
    while k < p.len()
        invariant
            start <= k <= p@.len(),
            d == p@.subrange(start as int, p@.len() as int),
            d == unsigned_part(p@),
            forall|i: int| start <= i < k ==> is_digit(#[trigger] p@[i]),
            v <= 255 ==> v == digits_value(p@.subrange(start as int, k as int)),
            v > 255 ==> digits_value(p@.subrange(start as int, k as int)) > 255,
            v <= 2559,
        decreases p@.len() - k,
    {
        let c = p[k];
        if !('0' <= c && c <= '9') {
            assert(d[k - start] == p@[k as int]);
            assert(!is_digit(d[k - start]));
            return 0;
        }
        let ghost pre = p@.subrange(start as int, k as int);
        assert(p@.subrange(start as int, k + 1).drop_last() == pre);
        if v <= 255 {
            v = v * 10 + (c as u32 - '0' as u32);
        }
        k = k + 1;
    }
    assert(p@.subrange(start as int, k as int) == d);
    assert forall|i: int| 0 <= i < d.len() implies is_digit(#[trigger] d[i]) by {
        assert(d[i] == p@[i + start]);
    }
    if v <= 255 {
        v as u8
    } else {
        0
    }
}

/// Whether the client's `version` is at least the server's, component by
/// component.
pub fn version_ok(version: &str) -> (r: bool)
    ensures
        r == version_supported(version@),
{
    let n = version.unicode_len();
    let mut comps: Vec<u8> = Vec::new();
    let mut current: Vec<char> = Vec::new();
    let mut k: usize = 0;
    let ghost s = version@;
    while k < n
        invariant
            n == s.len(),
            s == version@,
            k <= n,
            comps@.len() + 1 == split_dots(s.take(k as int)).len(),
            current@ == split_dots(s.take(k as int)).last(),
            forall|i: int|
                0 <= i < comps@.len() ==> #[trigger] comps@[i] == match parse_u8(
                    split_dots(s.take(k as int))[i],
                ) {
                    Some(v) => v,
                    None => 0,
                },
        decreases n - k,
    {
        let c = version.get_char(k);
        proof {
            assert(s.take(k + 1).drop_last() == s.take(k as int));
            lemma_split_nonempty(s.take(k as int));
        }
        if c == '.' {
            let v = part_value(&current);
            comps.push(v);
            current = Vec::new();
        } else {
            current.push(c);
        }
        k = k + 1;
    }
    proof {
        assert(s.take(k as int) =~= s);
    }
    let last = part_value(&current);
    comps.push(last);
    let c0 = comps[0];
    let c1 = if comps.len() > 1 {
        comps[1]
    } else {
        0
    };
    let c2 = if comps.len() > 2 {
        comps[2]
    } else {
        0
    };
    c0 >= VERSION_MAJOR && c1 >= VERSION_MINOR && c2 >= VERSION_PATCH
}

} // verus!
