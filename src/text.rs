//! Character-level building blocks for the line grammars: literal matching,
//! digit and word runs, and searches for the first or last index with a
//! property.
use vstd::prelude::*;

verus! {

/// `t` occurs in `s` starting at index `i`.
pub open spec fn occurs_at(s: Seq<char>, i: int, t: Seq<char>) -> bool {
    0 <= i && i + t.len() <= s.len() && s.subrange(i, i + t.len()) == t
}

/// An ASCII decimal digit.
pub open spec fn is_digit(c: char) -> bool {
    '0' <= c && c <= '9'
}

/// A word character: ASCII letter, digit or underscore.
pub open spec fn is_word(c: char) -> bool {
    is_digit(c) || ('a' <= c && c <= 'z') || ('A' <= c && c <= 'Z') || c == '_'
}

/// End of the run of digits that starts at `i`.
pub open spec fn digits_end(s: Seq<char>, i: int) -> int
    decreases s.len() - i,
{
    if 0 <= i < s.len() && is_digit(s[i]) {
        digits_end(s, i + 1)
    } else {
        i
    }
}

/// End of the run of word characters that starts at `i`.
pub open spec fn word_end(s: Seq<char>, i: int) -> int
    decreases s.len() - i,
{
    if 0 <= i < s.len() && is_word(s[i]) {
        word_end(s, i + 1)
    } else {
        i
    }
}

/// Index of the first line break at or after `i`, or the length of `s`.
pub open spec fn break_from(s: Seq<char>, i: int) -> int
    decreases s.len() - i,
{
    if 0 <= i < s.len() && s[i] != '\n' {
        break_from(s, i + 1)
    } else {
        i
    }
}

/// The greatest index in `[lo, hi)` that satisfies `p`.
pub open spec fn last_in(lo: int, hi: int, p: spec_fn(int) -> bool) -> Option<int>
    decreases hi - lo,
{
    if hi <= lo {
        None
    } else if p(hi - 1) {
        Some(hi - 1)
    } else {
        last_in(lo, hi - 1, p)
    }
}

/// The least index in `[lo, hi)` that satisfies `p`.
pub open spec fn first_in(lo: int, hi: int, p: spec_fn(int) -> bool) -> Option<int>
    decreases hi - lo,
{
    if hi <= lo {
        None
    } else if p(lo) {
        Some(lo)
    } else {
        first_in(lo + 1, hi, p)
    }
}

/// The number written by a sequence of digits.
pub open spec fn digits_value(s: Seq<char>) -> nat
    decreases s.len(),
{
    if s.len() == 0 {
        0
    } else {
        (digits_value(s.drop_last()) * 10 + (s.last() as int - '0' as int)) as nat
    }
}

/// A number that fits in `u32`, or `None`.
pub open spec fn as_u32(n: nat) -> Option<u32> {
    if n <= u32::MAX {
        Some(n as u32)
    } else {
        None
    }
}

/// An index found by an executable search, read as a mathematical integer.
pub open spec fn as_int(o: Option<usize>) -> Option<int> {
    match o {
        Some(x) => Some(x as int),
        None => None,
    }
}

/// A found index lies in the searched range and satisfies the property.
pub proof fn lemma_last_in_found(lo: int, hi: int, p: spec_fn(int) -> bool)
    ensures
        last_in(lo, hi, p) matches Some(k) ==> lo <= k < hi && p(k),
    decreases hi - lo,
{
    if hi > lo && !p(hi - 1) {
        lemma_last_in_found(lo, hi - 1, p);
    }
}

/// A found index lies in the searched range and satisfies the property.
pub proof fn lemma_first_in_found(lo: int, hi: int, p: spec_fn(int) -> bool)
    ensures
        first_in(lo, hi, p) matches Some(k) ==> lo <= k < hi && p(k),
    decreases hi - lo,
{
    if hi > lo && !p(lo) {
        lemma_first_in_found(lo + 1, hi, p);
    }
}

/// The characters of `s`, one element per character.
pub fn to_chars(s: &str) -> (r: Vec<char>)
    ensures
        r@ == s@,
{
    let n = s.unicode_len();
    let mut r: Vec<char> = Vec::new();
    let mut i: usize = 0;
    while i < n
        invariant
            n == s@.len(),
            i <= n,
            r@ == s@.subrange(0, i as int),
        decreases n - i,
    {
        r.push(s.get_char(i));
        i = i + 1;
    }
    assert(r@ == s@);
    r
}

/// Whether the literal `t` occurs in `v` at index `i`.
pub fn occurs(v: &Vec<char>, i: usize, t: &str) -> (r: bool)
    ensures
        r == occurs_at(v@, i as int, t@),
        r ==> i + t@.len() <= v.len(),
{
    let n = t.unicode_len();
    if i > v.len() || n > v.len() - i {
        return false;
    }
    let mut k: usize = 0;
    while k < n
        invariant
            n == t@.len(),
            i + n <= v@.len(),
            v@.len() == v.len(),
            k <= n,
            forall|m: int| 0 <= m < k ==> v@[i + m] == t@[m],
        decreases n - k,
    {
        if v[i + k] != t.get_char(k) {
            assert(v@.subrange(i as int, i + n)[k as int] != t@[k as int]);
            return false;
        }
        k = k + 1;
    }
    assert(v@.subrange(i as int, i + n) == t@);
    true
}

/// End of the run of digits that starts at `i`.
pub fn digits_end_at(v: &Vec<char>, i: usize) -> (r: usize)
    requires
        i <= v@.len(),
    ensures
        r as int == digits_end(v@, i as int),
        i <= r <= v@.len(),
{
    let mut k = i;
    while k < v.len() && '0' <= v[k] && v[k] <= '9'
        invariant
            i <= k <= v@.len(),
            digits_end(v@, i as int) == digits_end(v@, k as int),
        decreases v@.len() - k,
    {
        k = k + 1;
    }
    k
}

/// End of the run of word characters that starts at `i`.
pub fn word_end_at(v: &Vec<char>, i: usize) -> (r: usize)
    requires
        i <= v@.len(),
    ensures
        r as int == word_end(v@, i as int),
        i <= r <= v@.len(),
{
    let mut k = i;
    while k < v.len() && (('0' <= v[k] && v[k] <= '9') || ('a' <= v[k] && v[k] <= 'z') || (
    'A' <= v[k] && v[k] <= 'Z') || v[k] == '_')
        invariant
            i <= k <= v@.len(),
            word_end(v@, i as int) == word_end(v@, k as int),
        decreases v@.len() - k,
    {
        k = k + 1;
    }
    k
}

/// Index of the first line break at or after `i`, or the length of `v`.
pub fn break_at(v: &Vec<char>, i: usize) -> (r: usize)
    requires
        i <= v@.len(),
    ensures
        r as int == break_from(v@, i as int),
        i <= r <= v@.len(),
{
    let mut k = i;
    while k < v.len() && v[k] != '\n'
        invariant
            i <= k <= v@.len(),
            break_from(v@, i as int) == break_from(v@, k as int),
        decreases v@.len() - k,
    {
        k = k + 1;
    }
    k
}

/// The number written by the digits `v[lo..hi]`, when it fits in `u32`.
pub fn parse_count(v: &Vec<char>, lo: usize, hi: usize) -> (r: Option<u32>)
    requires
        lo <= hi <= v@.len(),
        forall|k: int| lo <= k < hi ==> is_digit(v@[k]),
    ensures
        r == as_u32(digits_value(v@.subrange(lo as int, hi as int))),
{
    let cap: u64 = 4294967296;
    let mut acc: u64 = 0;
    let mut k = lo;
    while k < hi
        invariant
            lo <= k <= hi <= v@.len(),
            forall|k: int| lo <= k < hi ==> is_digit(v@[k]),
            cap == 4294967296,
            acc <= cap,
            acc < cap ==> acc == digits_value(v@.subrange(lo as int, k as int)),
            acc == cap ==> digits_value(v@.subrange(lo as int, k as int)) >= cap,
        decreases hi - k,
    {
        let d = (v[k] as u32 - '0' as u32) as u64;
        let ghost prev = v@.subrange(lo as int, k as int);
        let ghost next = v@.subrange(lo as int, k + 1);
        assert(next.drop_last() == prev);
        assert(digits_value(next) == digits_value(prev) * 10 + d);
        if acc < cap {
            let n = acc * 10 + d;
            acc = if n >= cap {
                cap
            } else {
                n
            };
        } else {
            assert(digits_value(next) >= cap) by (nonlinear_arith)
                requires
                    digits_value(next) == digits_value(prev) * 10 + d,
                    digits_value(prev) >= cap,
            ;
        }
        k = k + 1;
    }
    if acc < cap {
        Some(acc as u32)
    } else {
        None
    }
}

/// Every character of a run of digits is a digit.
pub proof fn lemma_digits_run(s: Seq<char>, k: int)
    requires
        0 <= k <= s.len(),
    ensures
        k <= digits_end(s, k) <= s.len(),
        forall|i: int| k <= i < digits_end(s, k) ==> is_digit(#[trigger] s[i]),
    decreases s.len() - k,
{
    if k < s.len() && is_digit(s[k]) {
        lemma_digits_run(s, k + 1);
    }
}

/// No line break from `i` on: the break search reaches the end.
pub proof fn lemma_no_break(s: Seq<char>, i: int)
    requires
        0 <= i <= s.len(),
        forall|k: int| i <= k < s.len() ==> s[k] != '\n',
    ensures
        break_from(s, i) == s.len(),
    decreases s.len() - i,
{
    if i < s.len() {
        lemma_no_break(s, i + 1);
    }
}

/// Where `p` holds at `m` and nowhere above it, the greatest index with `p`
/// is `m`.
pub proof fn lemma_last_in_top(lo: int, m: int, hi: int, p: spec_fn(int) -> bool)
    requires
        lo <= m < hi,
        p(m),
        forall|j: int| m < j < hi ==> !#[trigger] p(j),
    ensures
        last_in(lo, hi, p) == Some(m),
    decreases hi - m,
{
    if hi - 1 > m {
        lemma_last_in_top(lo, m, hi - 1, p);
    }
}

/// A text whose first character differs from the one at `i` does not occur
/// at `i`.
pub proof fn lemma_not_at(s: Seq<char>, i: int, t: Seq<char>)
    requires
        0 <= i < s.len(),
        t.len() > 0,
        s[i] != t[0],
    ensures
        !occurs_at(s, i, t),
{
    if i + t.len() <= s.len() {
        assert(s.subrange(i, i + t.len())[0] == s[i]);
    }
}

} // verus!
