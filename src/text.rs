//! Character-level helpers on string slices.
use vstd::prelude::*;
use vstd::string::*;

verus! {

/// Whether `p` is a prefix of `s`.
pub open spec fn is_prefix(p: Seq<char>, s: Seq<char>) -> bool {
    p.len() <= s.len() && s.subrange(0, p.len() as int) == p
}

/// Whether `p` is a suffix of `s`.
pub open spec fn is_suffix(p: Seq<char>, s: Seq<char>) -> bool {
    p.len() <= s.len() && s.subrange(s.len() - p.len(), s.len() as int) == p
}

/// Whether `p` occurs in `s` at position `k`.
pub open spec fn occurs_at(p: Seq<char>, s: Seq<char>, k: int) -> bool {
    0 <= k && k + p.len() <= s.len() && s.subrange(k, k + p.len()) == p
}

/// Whether `p` occurs anywhere in `s`.
pub open spec fn contains_seq(p: Seq<char>, s: Seq<char>) -> bool {
    exists|k: int| occurs_at(p, s, k)
}

/// An owned copy of `s`.
pub fn owned(s: &str) -> (r: String)
    ensures
        r@ == s@,
{
    String::from_str(s)
}

/// Whether `a` and `b` hold the same characters.
pub fn str_eq(a: &str, b: &str) -> (r: bool)
    ensures
        r == (a@ == b@),
{
    let n = a.unicode_len();
    let m = b.unicode_len();
    if n != m {
        return false;
    }
    let mut i: usize = 0;
    while i < n
        invariant
            n == a@.len(),
            n == b@.len(),
            i <= n,
            forall|j: int| 0 <= j < i ==> a@[j] == b@[j],
        decreases n - i,
    {
        if a.get_char(i) != b.get_char(i) {
            return false;
        }
        i = i + 1;
    }
    assert(a@ =~= b@);
    true
}

/// Whether `s` holds `p` starting at character position `k`.
pub fn occurs_at_pos(p: &str, s: &str, k: usize) -> (r: bool)
    ensures
        r == occurs_at(p@, s@, k as int),
{
    let n = p.unicode_len();
    let m = s.unicode_len();
    if k > m || n > m - k {
        return false;
    }
    let mut i: usize = 0;
    while i < n
        invariant
            n == p@.len(),
            m == s@.len(),
            k + n <= m,
            i <= n,
            forall|j: int| 0 <= j < i ==> s@[k + j] == p@[j],
        decreases n - i,
    {
        if s.get_char(k + i) != p.get_char(i) {
            assert(s@.subrange(k as int, k + n)[i as int] != p@[i as int]);
            return false;
        }
        i = i + 1;
    }
    assert(s@.subrange(k as int, k + n) =~= p@);
    true
}

/// Whether `s` ends with `p`.
pub fn ends_with(s: &str, p: &str) -> (r: bool)
    ensures
        r == is_suffix(p@, s@),
{
    let n = p.unicode_len();
    let m = s.unicode_len();
    if n > m {
        return false;
    }
    occurs_at_pos(p, s, m - n)
}

/// The Unicode `White_Space` characters, the set `char::is_whitespace` tests.
pub open spec fn is_ws(c: char) -> bool {
    (9 <= c as u32 <= 13) || c as u32 == 0x20 || c as u32 == 0x85 || c as u32 == 0xA0 || c as u32
        == 0x1680 || (0x2000 <= c as u32 <= 0x200A) || c as u32 == 0x2028 || c as u32 == 0x2029
        || c as u32 == 0x202F || c as u32 == 0x205F || c as u32 == 0x3000
}

/// Whether `c` is a Unicode white-space character.
pub fn is_ws_char(c: char) -> (r: bool)
    ensures
        r == is_ws(c),
{
    let u = c as u32;
    (9 <= u && u <= 13) || u == 0x20 || u == 0x85 || u == 0xA0 || u == 0x1680 || (0x2000 <= u && u
        <= 0x200A) || u == 0x2028 || u == 0x2029 || u == 0x202F || u == 0x205F || u == 0x3000
}

/// `x` without its leading white space.
pub open spec fn trim_start(x: Seq<char>) -> Seq<char>
    decreases x.len(),
{
    if x.len() > 0 && is_ws(x[0]) {
        trim_start(x.drop_first())
    } else {
        x
    }
}

/// `x` without its trailing white space.
pub open spec fn trim_end(x: Seq<char>) -> Seq<char>
    decreases x.len(),
{
    if x.len() > 0 && is_ws(x.last()) {
        trim_end(x.drop_last())
    } else {
        x
    }
}

/// `x` without leading and trailing white space.
pub open spec fn trim(x: Seq<char>) -> Seq<char> {
    trim_end(trim_start(x))
}

/// `x` with every leading repetition of a non-empty `p` removed.
pub open spec fn strip_repeated(x: Seq<char>, p: Seq<char>) -> Seq<char>
    decreases x.len(),
{
    if p.len() > 0 && is_prefix(p, x) {
        strip_repeated(x.subrange(p.len() as int, x.len() as int), p)
    } else {
        x
    }
}

/// Whether `k` is the first position of `c` in `x`.
pub open spec fn is_first(x: Seq<char>, c: char, k: int) -> bool {
    0 <= k < x.len() && x[k] == c && forall|j: int| 0 <= j < k ==> x[j] != c
}

/// A character has one first position.
pub proof fn lemma_first_unique(x: Seq<char>, c: char, a: int, b: int)
    requires
        is_first(x, c, a),
        is_first(x, c, b),
    ensures
        a == b,
{
    if a < b {
        assert(x[a] != c);
    } else if b < a {
        assert(x[b] != c);
    }
}

/// The characters of `s`, in a vector.
pub fn chars_of(s: &str) -> (r: Vec<char>)
    ensures
        r@ == s@,
{
    let n = s.unicode_len();
    let mut v: Vec<char> = Vec::new();
    let mut i: usize = 0;
    while i < n
        invariant
            n == s@.len(),
            i <= n,
            v@ == s@.subrange(0, i as int),
        decreases n - i,
    {
        v.push(s.get_char(i));
        i = i + 1;
        assert(v@ =~= s@.subrange(0, i as int));
    }
    v
}

/// The span of `s[a..b]` without leading and trailing white space.
pub fn trim_span(s: &Vec<char>, a: usize, b: usize) -> (r: (usize, usize))
    requires
        a <= b <= s@.len(),
    ensures
        a <= r.0 <= r.1 <= b,
        s@.subrange(r.0 as int, r.1 as int) == trim(s@.subrange(a as int, b as int)),
{
    let mut lo = a;
    while lo < b && is_ws_char(s[lo])
        invariant
            a <= lo <= b <= s@.len(),
            trim_start(s@.subrange(a as int, b as int)) == trim_start(s@.subrange(lo as int, b as int)),
        decreases b - lo,
    {
        assert(s@.subrange(lo as int, b as int).drop_first() =~= s@.subrange(lo + 1, b as int));
        lo = lo + 1;
    }
    let mut hi = b;
    while hi > lo && is_ws_char(s[hi - 1])
        invariant
            a <= lo <= hi <= b <= s@.len(),
            trim_end(s@.subrange(lo as int, b as int)) == trim_end(s@.subrange(lo as int, hi as int)),
        decreases hi - lo,
    {
        assert(s@.subrange(lo as int, hi as int).drop_last() =~= s@.subrange(lo as int, hi - 1));
        hi = hi - 1;
    }
    (lo, hi)
}

/// Whether `s[a..b]` starts with `p`.
pub fn span_has_prefix(s: &Vec<char>, a: usize, b: usize, p: &str) -> (r: bool)
    requires
        a <= b <= s@.len(),
    ensures
        r == is_prefix(p@, s@.subrange(a as int, b as int)),
{
    let n = p.unicode_len();
    if n > b - a {
        return false;
    }
    let mut i: usize = 0;
    while i < n
        invariant
            n == p@.len(),
            a + n <= b <= s@.len(),
            i <= n,
            forall|j: int| 0 <= j < i ==> s@[a + j] == p@[j],
        decreases n - i,
    {
        if s[a + i] != p.get_char(i) {
            assert(s@.subrange(a as int, b as int).subrange(0, n as int)[i as int] != p@[i as int]);
            return false;
        }
        i = i + 1;
    }
    assert(s@.subrange(a as int, b as int).subrange(0, n as int) =~= p@);
    true
}

/// Whether `p` occurs in `s[a..b]`.
pub fn span_contains(s: &Vec<char>, a: usize, b: usize, p: &str) -> (r: bool)
    requires
        a <= b <= s@.len(),
    ensures
        r == contains_seq(p@, s@.subrange(a as int, b as int)),
{
    let ghost x = s@.subrange(a as int, b as int);
    let mut k: usize = a;
    while k <= b
        invariant
            x == s@.subrange(a as int, b as int),
            a <= k <= b + 1,
            b <= s@.len(),
            forall|j: int| 0 <= j < k - a ==> !occurs_at(p@, x, j),
        decreases b + 1 - k,
    {
        if span_has_prefix(s, k, b, p) {
            assert(s@.subrange(k as int, b as int) =~= x.subrange(k - a, x.len() as int));
            assert(x.subrange(k - a, k - a + p@.len()) =~= s@.subrange(k as int, b as int).subrange(0, p@.len() as int));
            assert(occurs_at(p@, x, k - a));
            return true;
        }
        proof {
            if occurs_at(p@, x, k - a) {
                assert(s@.subrange(k as int, b as int).subrange(0, p@.len() as int) =~= x.subrange(k - a, k - a + p@.len()));
            }
        }
        if k == b {
            assert forall|j: int| !occurs_at(p@, x, j) by {
                if 0 <= j && j + p@.len() <= x.len() {
                    assert(j < k + 1 - a);
                }
            }
            return false;
        }
        k = k + 1;
    }
    false
}

/// The end of `s[a..b]` after removing every leading repetition of `p`.
pub fn strip_repeated_span(s: &Vec<char>, a: usize, b: usize, p: &str) -> (r: usize)
    requires
        a <= b <= s@.len(),
    ensures
        a <= r <= b,
        s@.subrange(r as int, b as int) == strip_repeated(s@.subrange(a as int, b as int), p@),
{
    let n = p.unicode_len();
    if n == 0 {
        return a;
    }
    let mut lo = a;
    while span_has_prefix(s, lo, b, p)
        invariant
            n == p@.len(),
            n > 0,
            a <= lo <= b <= s@.len(),
            strip_repeated(s@.subrange(a as int, b as int), p@) == strip_repeated(s@.subrange(lo as int, b as int), p@),
        decreases b - lo,
    {
        assert(s@.subrange(lo as int, b as int).subrange(n as int, (b - lo) as int) =~= s@.subrange(lo + n, b as int));
        lo = lo + n;
    }
    lo
}

/// The first position of `c` in `s[a..b]`, counted from `a`.
pub fn span_find(s: &Vec<char>, a: usize, b: usize, c: char) -> (r: Option<usize>)
    requires
        a <= b <= s@.len(),
    ensures
        match r {
            Some(k) => is_first(s@.subrange(a as int, b as int), c, k as int),
            None => forall|j: int| 0 <= j < b - a ==> s@.subrange(a as int, b as int)[j] != c,
        },
{
    let mut k: usize = a;
    while k < b
        invariant
            a <= k <= b <= s@.len(),
            forall|j: int| a <= j < k ==> s@[j] != c,
        decreases b - k,
    {
        if s[k] == c {
            return Some(k - a);
        }
        k = k + 1;
    }
    None
}

/// Decimal digits of `n`.
pub open spec fn decimal(n: nat) -> Seq<char>
    decreases n,
{
    if n < 10 {
        seq![digit_char(n)]
    } else {
        decimal(n / 10).push(digit_char(n % 10))
    }
}

/// The digit character for `d < 10`.
pub open spec fn digit_char(d: nat) -> char {
    ((d + 48) as u32) as char
}

/// Decimal representation of `n`.
pub fn decimal_string(n: u64) -> (r: String)
    ensures
        r@ == decimal(n as nat),
    decreases n,
{
    let digits = "0123456789";
    proof {
        reveal_strlit("0123456789");
    }
    if n < 10 {
        let d = n as usize;
        let r = String::from_str(digits.substring_char(d, d + 1));
        assert(r@ =~= seq![digit_char(n as nat)]);
        r
    } else {
        let mut r = decimal_string(n / 10);
        let d = (n % 10) as usize;
        r.append(digits.substring_char(d, d + 1));
        assert(r@ =~= decimal((n / 10) as nat).push(digit_char((n % 10) as nat)));
        r
    }
}

} // verus!
