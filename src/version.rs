//! Compatibility of language versions with this host runtime.
use vstd::prelude::*;
use crate::text::{chars_of, lemma_first_unique, span_find};

verus! {

/// Whether `c` is an ASCII decimal digit.
pub open spec fn is_digit(c: char) -> bool {
    48 <= c as u32 <= 57
}

/// The value of a string of decimal digits.
pub open spec fn digits_value(s: Seq<char>) -> nat
    decreases s.len(),
{
    if s.len() == 0 {
        0
    } else {
        digits_value(s.drop_last()) * 10 + (s.last() as u32 - 48) as nat
    }
}

/// `s` without one leading `+`.
pub open spec fn unsigned_digits(s: Seq<char>) -> Seq<char> {
    if s.len() > 0 && s[0] == '+' {
        s.drop_first()
    } else {
        s
    }
}

/// Whether every character of `d` is a decimal digit.
pub open spec fn all_digits(d: Seq<char>) -> bool {
    forall|i: int| 0 <= i < d.len() ==> is_digit(#[trigger] d[i])
}

/// A `u32` written in decimal, with an optional leading `+`, as `str::parse::<u32>` reads it.
pub open spec fn parse_u32(s: Seq<char>) -> Option<u32> {
    let d = unsigned_digits(s);
    if d.len() > 0 && all_digits(d) && digits_value(d) <= u32::MAX {
        Some(digits_value(d) as u32)
    } else {
        None
    }
}

fn parse_u32_span(s: &Vec<char>, a: usize, b: usize) -> (r: Option<u32>)
    requires
        a <= b <= s@.len(),
    ensures
        r == parse_u32(s@.subrange(a as int, b as int)),
{
    let ghost whole = s@.subrange(a as int, b as int);
    let start = if a < b && s[a] == '+' { a + 1 } else { a };
    let ghost d = s@.subrange(start as int, b as int);
    assert(d == unsigned_digits(whole));
    if start == b {
        return None;
    }
    let mut value: u64 = 0;
    let mut over = false;
    let mut i: usize = start;
    while i < b
        invariant
            start <= i <= b <= s@.len(),
            a <= start,
            whole == s@.subrange(a as int, b as int),
            d == s@.subrange(start as int, b as int),
            d == unsigned_digits(whole),
            d.len() > 0,
            forall|j: int| start <= j < i ==> is_digit(#[trigger] s@[j]),
            !over ==> value as nat == digits_value(s@.subrange(start as int, i as int)) && value
                <= u32::MAX,
            over ==> digits_value(s@.subrange(start as int, i as int)) > u32::MAX,
        decreases b - i,
    {
        let c = s[i];
        let u = c as u32;
        if !(48 <= u && u <= 57) {
            assert(d[i - start] == s@[i as int]);
            assert(!all_digits(d));
            return None;
        }
        let ghost prev = s@.subrange(start as int, i as int);
        assert(s@.subrange(start as int, i + 1).drop_last() =~= prev);
        if !over {
            let digit = (u - 48) as u64;
            value = value * 10 + digit;
            if value > 0xFFFF_FFFFu64 {
                over = true;
            }
        }
        i = i + 1;
    }
    assert(s@.subrange(start as int, b as int) =~= d);
    if over {
        None
    } else {
        Some(value as u32)
    }
}

/// The two leading dot-separated parts of a version string, if it has a dot.
pub open spec fn leading_parts(s: Seq<char>) -> Option<(Seq<char>, Seq<char>)> {
    if exists|k: int| 0 <= k < s.len() && s[k] == '.' {
        let k = choose|k: int| crate::text::is_first(s, '.', k);
        let rest = s.subrange(k + 1, s.len() as int);
        if exists|j: int| 0 <= j < rest.len() && rest[j] == '.' {
            let j = choose|j: int| crate::text::is_first(rest, '.', j);
            Some((s.subrange(0, k), rest.subrange(0, j)))
        } else {
            Some((s.subrange(0, k), rest))
        }
    } else {
        None
    }
}

/// Whether a version is `0.18.x` or `0.19.x`.
pub open spec fn spec_is_compatible(s: Seq<char>) -> bool {
    match leading_parts(s) {
        Some((major, minor)) => parse_u32(major) == Some(0u32) && (parse_u32(minor) == Some(18u32)
            || parse_u32(minor) == Some(19u32)),
        None => false,
    }
}

proof fn lemma_first_exists(s: Seq<char>, c: char, k: int)
    requires
        0 <= k < s.len(),
        s[k] == c,
    ensures
        exists|m: int| crate::text::is_first(s, c, m),
    decreases k,
{
    if exists|j: int| 0 <= j < k && s[j] == c {
        let j = choose|j: int| 0 <= j < k && s[j] == c;
        lemma_first_exists(s, c, j);
    } else {
        assert(crate::text::is_first(s, c, k));
    }
}

/// Check if a language version is compatible with this host runtime.
pub fn is_compatible_version(version: &str) -> (r: bool)
    ensures
        r == spec_is_compatible(version@),
{
    let s = chars_of(version);
    let n = s.len();
    assert(s@.subrange(0, n as int) =~= version@);
    let k = match span_find(&s, 0, n, '.') {
        Some(k) => k,
        None => {
            return false;
        },
    };
    proof {
        let m = choose|m: int| crate::text::is_first(version@, '.', m);
        lemma_first_exists(version@, '.', k as int);
        lemma_first_unique(version@, '.', m, k as int);
    }
    let ghost rest = version@.subrange(k + 1, n as int);
    let end = match span_find(&s, k + 1, n, '.') {
        Some(j) => {
            proof {
                let m = choose|m: int| crate::text::is_first(rest, '.', m);
                lemma_first_exists(rest, '.', j as int);
                lemma_first_unique(rest, '.', m, j as int);
                assert(rest.subrange(0, j as int) =~= s@.subrange(k + 1, k + 1 + j));
            }
            k + 1 + j
        },
        None => {
            assert(rest =~= s@.subrange(k + 1, n as int));
            n
        },
    };
    assert(version@.subrange(0, k as int) =~= s@.subrange(0, k as int));
    let major = parse_u32_span(&s, 0, k);
    let minor = parse_u32_span(&s, k + 1, end);
    match (major, minor) {
        (Some(ma), Some(mi)) => ma == 0 && (mi == 18 || mi == 19),
        _ => false,
    }
}

} // verus!
