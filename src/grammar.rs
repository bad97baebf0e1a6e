//! The line grammars of the tool's plan, apply and destroy output.
//!
//! Each grammar is stated as a spec function over the characters of a line
//! and decided by an executable function proved equal to it. Where a part of
//! a line is free text, the grammar takes the longest such part that still
//! lets the rest of the line match; free text never spans a line break. An
//! unanchored grammar takes its leftmost occurrence.
use crate::event::TerraformResourceChange;
use crate::text::{
    as_int, break_at, break_from, digits_end, digits_end_at, first_in, is_digit, last_in,
    lemma_last_in_found, occurs, occurs_at, word_end, word_end_at,
};
use vstd::prelude::*;

verus! {

/// A verb found at some index: its text and the change it names.
pub type Verb = Option<(Seq<char>, TerraformResourceChange)>;

/// An executable verb match agrees with the spec one.
pub open spec fn verb_agrees(r: Option<(usize, TerraformResourceChange)>, sp: Verb) -> bool {
    match r {
        Some((n, c)) => sp matches Some((t, d)) && n == t.len() && c == d,
        None => sp is None,
    }
}

/// The verb of a line that starts an action.
pub open spec fn start_verb(s: Seq<char>, i: int) -> Verb {
    if occurs_at(s, i, "Destroying"@) {
        Some(("Destroying"@, TerraformResourceChange::Destroy))
    } else if occurs_at(s, i, "Creating"@) {
        Some(("Creating"@, TerraformResourceChange::Create))
    } else if occurs_at(s, i, "Modifying"@) {
        Some(("Modifying"@, TerraformResourceChange::Update))
    } else if occurs_at(s, i, "Reading"@) {
        Some(("Reading"@, TerraformResourceChange::Read))
    } else {
        None
    }
}

/// The verb of a line that reports an action still running.
pub open spec fn still_verb(s: Seq<char>, i: int) -> Verb {
    if occurs_at(s, i, "modifying"@) {
        Some(("modifying"@, TerraformResourceChange::Update))
    } else if occurs_at(s, i, "destroying"@) {
        Some(("destroying"@, TerraformResourceChange::Destroy))
    } else if occurs_at(s, i, "creating"@) {
        Some(("creating"@, TerraformResourceChange::Create))
    } else if occurs_at(s, i, "reading"@) {
        Some(("reading"@, TerraformResourceChange::Read))
    } else {
        None
    }
}

/// The noun of a line that reports an action complete.
pub open spec fn done_verb(s: Seq<char>, i: int) -> Verb {
    if occurs_at(s, i, "Modifications"@) {
        Some(("Modifications"@, TerraformResourceChange::Update))
    } else if occurs_at(s, i, "Destruction"@) {
        Some(("Destruction"@, TerraformResourceChange::Destroy))
    } else if occurs_at(s, i, "Creation"@) {
        Some(("Creation"@, TerraformResourceChange::Create))
    } else if occurs_at(s, i, "Read"@) {
        Some(("Read"@, TerraformResourceChange::Read))
    } else {
        None
    }
}

pub(crate) fn start_verb_at(v: &Vec<char>, i: usize) -> (r: Option<(usize, TerraformResourceChange)>)
    ensures
        verb_agrees(r, start_verb(v@, i as int)),
{
    if occurs(v, i, "Destroying") {
        Some(("Destroying".unicode_len(), TerraformResourceChange::Destroy))
    } else if occurs(v, i, "Creating") {
        Some(("Creating".unicode_len(), TerraformResourceChange::Create))
    } else if occurs(v, i, "Modifying") {
        Some(("Modifying".unicode_len(), TerraformResourceChange::Update))
    } else if occurs(v, i, "Reading") {
        Some(("Reading".unicode_len(), TerraformResourceChange::Read))
    } else {
        None
    }
}

pub(crate) fn still_verb_at(v: &Vec<char>, i: usize) -> (r: Option<(usize, TerraformResourceChange)>)
    ensures
        verb_agrees(r, still_verb(v@, i as int)),
{
    if occurs(v, i, "modifying") {
        Some(("modifying".unicode_len(), TerraformResourceChange::Update))
    } else if occurs(v, i, "destroying") {
        Some(("destroying".unicode_len(), TerraformResourceChange::Destroy))
    } else if occurs(v, i, "creating") {
        Some(("creating".unicode_len(), TerraformResourceChange::Create))
    } else if occurs(v, i, "reading") {
        Some(("reading".unicode_len(), TerraformResourceChange::Read))
    } else {
        None
    }
}

pub(crate) fn done_verb_at(v: &Vec<char>, i: usize) -> (r: Option<(usize, TerraformResourceChange)>)
    ensures
        verb_agrees(r, done_verb(v@, i as int)),
{
    if occurs(v, i, "Modifications") {
        Some(("Modifications".unicode_len(), TerraformResourceChange::Update))
    } else if occurs(v, i, "Destruction") {
        Some(("Destruction".unicode_len(), TerraformResourceChange::Destroy))
    } else if occurs(v, i, "Creation") {
        Some(("Creation".unicode_len(), TerraformResourceChange::Create))
    } else if occurs(v, i, "Read") {
        Some(("Read".unicode_len(), TerraformResourceChange::Read))
    } else {
        None
    }
}

/// Indices of `=` signs.
pub open spec fn equals_signs(s: Seq<char>) -> spec_fn(int) -> bool {
    |m: int| 0 <= m < s.len() && s[m] == '='
}

/// What may close a line after its action part, which ends at `k`: nothing
/// (`Some(None)`), or ` [key=value]` up to the end of the line
/// (`Some(Some((a, m)))`, the key spanning `a..m` and the value `m + 1` up to
/// the closing bracket, both non-empty). `None` when neither fits.
pub open spec fn id_suffix(s: Seq<char>, k: int) -> Option<Option<(int, int)>> {
    if k == s.len() {
        Some(None)
    } else if occurs_at(s, k, " ["@) && s.len() >= 1 && s[s.len() - 1] == ']' {
        let a = k + " ["@.len();
        match last_in(a + 1, s.len() - 2, equals_signs(s)) {
            Some(m) => Some(Some((a, m))),
            None => None,
        }
    } else {
        None
    }
}

/// Spans found by executable code, read as integers.
pub open spec fn as_spans(o: Option<Option<(usize, usize)>>) -> Option<Option<(int, int)>> {
    match o {
        Some(Some((a, b))) => Some(Some((a as int, b as int))),
        Some(None) => Some(None),
        None => None,
    }
}

fn last_equals_sign(v: &Vec<char>, lo: usize, hi: usize) -> (r: Option<usize>)
    ensures
        as_int(r) == last_in(lo as int, hi as int, equals_signs(v@)),
        r matches Some(m) ==> lo <= m < hi,
{
    let mut k = hi;
    while k > lo
        invariant
            lo <= hi ==> lo <= k <= hi,
            lo > hi ==> k == hi,
            last_in(lo as int, hi as int, equals_signs(v@)) == last_in(
                lo as int,
                k as int,
                equals_signs(v@),
            ),
        decreases k,
    {
        if k - 1 < v.len() && v[k - 1] == '=' {
            return Some(k - 1);
        }
        k = k - 1;
    }
    None
}

pub(crate) fn id_suffix_at(v: &Vec<char>, k: usize) -> (r: Option<Option<(usize, usize)>>)
    ensures
        as_spans(r) == id_suffix(v@, k as int),
        r matches Some(Some((a, m))) ==> k <= a < m && m + 2 < v@.len(),
{
    let n = v.len();
    if k == n {
        Some(None)
    } else if occurs(v, k, " [") && n >= 1 && v[n - 1] == ']' {
        let a = k + " [".unicode_len();
        if n < 2 || a >= n {
            return None;
        }
        match last_equals_sign(v, a + 1, n - 2) {
            Some(m) => Some(Some((a, m))),
            None => None,
        }
    } else {
        None
    }
}

/// Where the address ends in a line that starts an action on a resource:
/// `<address>: <Verb>...`, optionally followed by ` [key=value]`.
pub open spec fn start_tail(s: Seq<char>, j: int) -> bool {
    occurs_at(s, j, ": "@) && match start_verb(s, j + ": "@.len()) {
        Some((t, _)) => {
            let k = j + ": "@.len() + t.len();
            occurs_at(s, k, "..."@) && id_suffix(s, k + "..."@.len()) is Some
        },
        None => false,
    }
}

pub open spec fn start_tails(s: Seq<char>) -> spec_fn(int) -> bool {
    |j: int| start_tail(s, j)
}

/// End of the address of a line that starts an action; the whole line must
/// match.
pub open spec fn action_started(s: Seq<char>) -> Option<int> {
    if break_from(s, 0) == s.len() {
        last_in(1, s.len() as int, start_tails(s))
    } else {
        None
    }
}

fn start_tail_at(v: &Vec<char>, j: usize) -> (r: bool)
    ensures
        r == start_tail(v@, j as int),
{
    if !occurs(v, j, ": ") {
        return false;
    }
    match start_verb_at(v, j + ": ".unicode_len()) {
        Some((t, _)) => {
            let k = j + ": ".unicode_len() + t;
            occurs(v, k, "...") && id_suffix_at(v, k + "...".unicode_len()).is_some()
        },
        None => false,
    }
}

pub fn match_action_started(v: &Vec<char>) -> (r: Option<usize>)
    ensures
        as_int(r) == action_started(v@),
        r matches Some(j) ==> 1 <= j < v@.len(),
{
    if break_at(v, 0) != v.len() {
        return None;
    }
    let mut k = v.len();
    while k > 1
        invariant
            1 <= k <= v@.len() || k == v@.len(),
            break_from(v@, 0) == v@.len(),
            last_in(1, v@.len() as int, start_tails(v@)) == last_in(1, k as int, start_tails(v@)),
        decreases k,
    {
        if start_tail_at(v, k - 1) {
            assert(start_tails(v@)((k - 1) as int));
            return Some(k - 1);
        }
        k = k - 1;
    }
    None
}

/// A duration such as `10s` or `1m30s` (a digit, then at least one more
/// word character) at `e`, followed by ` elapsed]`.
pub open spec fn elapsed_at(s: Seq<char>, e: int) -> bool {
    0 <= e < s.len() && is_digit(s[e]) && word_end(s, e) >= e + 2 && occurs_at(
        s,
        word_end(s, e),
        " elapsed]"@,
    )
}

/// `, ` followed by an elapsed duration.
pub open spec fn comma_elapsed(s: Seq<char>, p: int) -> bool {
    occurs_at(s, p, ", "@) && elapsed_at(s, p + ", "@.len())
}

pub open spec fn commas_elapsed(s: Seq<char>) -> spec_fn(int) -> bool {
    |p: int| comma_elapsed(s, p)
}

/// An `=` at `m` after which a non-empty value, `, ` and an elapsed duration
/// follow before the line break at `nl`.
pub open spec fn eq_before_elapsed(s: Seq<char>, nl: int, m: int) -> bool {
    0 <= m < s.len() && s[m] == '=' && last_in(m + 2, nl, commas_elapsed(s)) is Some
}

pub open spec fn eqs_before_elapsed(s: Seq<char>, nl: int) -> spec_fn(int) -> bool {
    |m: int| eq_before_elapsed(s, nl, m)
}

/// What stands inside the brackets of a progress line, from `b`: a
/// `key=value, ` pair and a duration (`Some(Some((m, p)))`, the key spanning
/// `b..m` and the value `m + 1..p`), or a duration alone (`Some(None)`).
pub open spec fn still_body(s: Seq<char>, b: int) -> Option<Option<(int, int)>> {
    let nl = break_from(s, b);
    match last_in(b + 1, nl, eqs_before_elapsed(s, nl)) {
        Some(m) => match last_in(m + 2, nl, commas_elapsed(s)) {
            Some(p) => Some(Some((m, p))),
            None => None,
        },
        None => if elapsed_at(s, b) {
            Some(None)
        } else {
            None
        },
    }
}

/// Where the address ends in a progress line:
/// `<address>: Still <verb>... [` then the bracket's body.
pub open spec fn still_tail(s: Seq<char>, j: int) -> bool {
    occurs_at(s, j, ": Still "@) && match still_verb(s, j + ": Still "@.len()) {
        Some((t, _)) => {
            let k = j + ": Still "@.len() + t.len();
            occurs_at(s, k, "... ["@) && still_body(s, k + "... ["@.len()) is Some
        },
        None => false,
    }
}

pub open spec fn still_tails(s: Seq<char>) -> spec_fn(int) -> bool {
    |j: int| still_tail(s, j)
}

/// End of the address of a progress line; the line must match from its
/// start, and may go on after the closing bracket.
pub open spec fn action_in_progress(s: Seq<char>) -> Option<int> {
    last_in(1, break_from(s, 0), still_tails(s))
}

fn elapsed_at_exec(v: &Vec<char>, e: usize) -> (r: bool)
    ensures
        r == elapsed_at(v@, e as int),
{
    if e >= v.len() || !('0' <= v[e] && v[e] <= '9') {
        return false;
    }
    let w = word_end_at(v, e);
    w - e >= 2 && occurs(v, w, " elapsed]")
}

fn comma_elapsed_at(v: &Vec<char>, p: usize) -> (r: bool)
    ensures
        r == comma_elapsed(v@, p as int),
{
    occurs(v, p, ", ") && elapsed_at_exec(v, p + ", ".unicode_len())
}

fn last_comma_elapsed(v: &Vec<char>, lo: usize, hi: usize) -> (r: Option<usize>)
    requires
        hi <= v@.len(),
    ensures
        as_int(r) == last_in(lo as int, hi as int, commas_elapsed(v@)),
        r matches Some(p) ==> lo <= p < hi,
{
    let mut k = hi;
    while k > lo
        invariant
            hi <= v@.len(),
            lo <= hi ==> lo <= k <= hi,
            lo > hi ==> k == hi,
            last_in(lo as int, hi as int, commas_elapsed(v@)) == last_in(
                lo as int,
                k as int,
                commas_elapsed(v@),
            ),
        decreases k,
    {
        if comma_elapsed_at(v, k - 1) {
            return Some(k - 1);
        }
        k = k - 1;
    }
    None
}

fn last_eq_before_elapsed(v: &Vec<char>, lo: usize, nl: usize) -> (r: Option<usize>)
    requires
        nl <= v@.len(),
    ensures
        as_int(r) == last_in(lo as int, nl as int, eqs_before_elapsed(v@, nl as int)),
        r matches Some(m) ==> lo <= m < nl,
{
    let mut k = nl;
    while k > lo
        invariant
            nl <= v@.len(),
            lo <= nl ==> lo <= k <= nl,
            lo > nl ==> k == nl,
            last_in(lo as int, nl as int, eqs_before_elapsed(v@, nl as int)) == last_in(
                lo as int,
                k as int,
                eqs_before_elapsed(v@, nl as int),
            ),
        decreases k,
    {
        let m = k - 1;
        if v[m] == '=' && nl - m >= 2 && last_comma_elapsed(v, m + 2, nl).is_some() {
            return Some(m);
        }
        k = k - 1;
    }
    None
}

pub(crate) fn still_body_at(v: &Vec<char>, b: usize) -> (r: Option<Option<(usize, usize)>>)
    requires
        b <= v@.len(),
    ensures
        as_spans(r) == still_body(v@, b as int),
        r matches Some(Some((m, p))) ==> b < m && m + 2 <= p <= v@.len(),
{
    let nl = break_at(v, b);
    let found = if b < nl {
        last_eq_before_elapsed(v, b + 1, nl)
    } else {
        None
    };
    match found {
        Some(m) => {
            proof {
                lemma_last_in_found(b + 1, nl as int, eqs_before_elapsed(v@, nl as int));
            }
            match last_comma_elapsed(v, m + 2, nl) {
                Some(p) => Some(Some((m, p))),
                None => None,
            }
        },
        None => if elapsed_at_exec(v, b) {
            Some(None)
        } else {
            None
        },
    }
}

fn still_tail_at(v: &Vec<char>, j: usize) -> (r: bool)
    ensures
        r == still_tail(v@, j as int),
{
    if !occurs(v, j, ": Still ") {
        return false;
    }
    match still_verb_at(v, j + ": Still ".unicode_len()) {
        Some((t, _)) => {
            let k = j + ": Still ".unicode_len() + t;
            occurs(v, k, "... [") && still_body_at(v, k + "... [".unicode_len()).is_some()
        },
        None => false,
    }
}

pub fn match_action_in_progress(v: &Vec<char>) -> (r: Option<usize>)
    ensures
        as_int(r) == action_in_progress(v@),
        r matches Some(j) ==> 1 <= j < v@.len(),
{
    let nl = break_at(v, 0);
    let mut k = nl;
    while k > 1
        invariant
            nl <= v@.len(),
            nl == break_from(v@, 0),
            1 <= k <= nl || k == nl,
            last_in(1, nl as int, still_tails(v@)) == last_in(1, k as int, still_tails(v@)),
        decreases k,
    {
        if still_tail_at(v, k - 1) {
            assert(still_tails(v@)((k - 1) as int));
            return Some(k - 1);
        }
        k = k - 1;
    }
    None
}

/// Where the address ends in a line that reports an action complete:
/// `<address>: <Noun> complete after <duration>`, optionally followed by
/// ` [key=value]`.
pub open spec fn done_tail(s: Seq<char>, j: int) -> bool {
    occurs_at(s, j, ": "@) && match done_verb(s, j + ": "@.len()) {
        Some((t, _)) => {
            let c = j + ": "@.len() + t.len();
            let e = c + " complete after "@.len();
            occurs_at(s, c, " complete after "@) && 0 <= e < s.len() && is_digit(s[e])
                && word_end(s, e) >= e + 2 && id_suffix(s, word_end(s, e)) is Some
        },
        None => false,
    }
}

pub open spec fn done_tails(s: Seq<char>) -> spec_fn(int) -> bool {
    |j: int| done_tail(s, j)
}

/// End of the address of a line that reports an action complete; the whole
/// line must match.
pub open spec fn action_done(s: Seq<char>) -> Option<int> {
    if break_from(s, 0) == s.len() {
        last_in(1, s.len() as int, done_tails(s))
    } else {
        None
    }
}

fn done_tail_at(v: &Vec<char>, j: usize) -> (r: bool)
    ensures
        r == done_tail(v@, j as int),
{
    if !occurs(v, j, ": ") {
        return false;
    }
    match done_verb_at(v, j + ": ".unicode_len()) {
        Some((t, _)) => {
            let c = j + ": ".unicode_len() + t;
            if !occurs(v, c, " complete after ") {
                return false;
            }
            let e = c + " complete after ".unicode_len();
            if e >= v.len() || !('0' <= v[e] && v[e] <= '9') {
                return false;
            }
            let w = word_end_at(v, e);
            w - e >= 2 && id_suffix_at(v, w).is_some()
        },
        None => false,
    }
}

pub fn match_action_done(v: &Vec<char>) -> (r: Option<usize>)
    ensures
        as_int(r) == action_done(v@),
        r matches Some(j) ==> 1 <= j < v@.len(),
{
    if break_at(v, 0) != v.len() {
        return None;
    }
    let mut k = v.len();
    while k > 1
        invariant
            1 <= k <= v@.len() || k == v@.len(),
            break_from(v@, 0) == v@.len(),
            last_in(1, v@.len() as int, done_tails(v@)) == last_in(1, k as int, done_tails(v@)),
        decreases k,
    {
        if done_tail_at(v, k - 1) {
            assert(done_tails(v@)((k - 1) as int));
            return Some(k - 1);
        }
        k = k - 1;
    }
    None
}

/// ` is tainted, so` ends at `j`: the address then ends before it.
pub open spec fn tainted_before(s: Seq<char>, j: int) -> bool {
    occurs_at(s, j - " is tainted, so"@.len(), " is tainted, so"@)
}

fn tainted_before_at(v: &Vec<char>, j: usize) -> (r: bool)
    ensures
        r == tainted_before(v@, j as int),
{
    let n = " is tainted, so".unicode_len();
    j >= n && occurs(v, j - n, " is tainted, so")
}

/// The change that a plan line announces when the address ends at `j`:
/// ` will be created`, ` will be read during apply`,
/// ` will be updated in-place`, ` will be destroyed`, or a replacement
/// (` is tainted, so must be replaced`, or ` must be replaced` where the
/// address does not end in ` is tainted, so`), which is a destruction
/// followed by a creation.
pub open spec fn plan_change_kind(s: Seq<char>, j: int) -> Option<Seq<TerraformResourceChange>> {
    if 0 <= j < s.len() && s[j] == ' ' {
        if occurs_at(s, j + 1, "will be created"@) {
            Some(seq![TerraformResourceChange::Create])
        } else if occurs_at(s, j + 1, "will be read during apply"@) {
            Some(seq![TerraformResourceChange::Read])
        } else if occurs_at(s, j + 1, "will be updated in-place"@) {
            Some(seq![TerraformResourceChange::Update])
        } else if occurs_at(s, j + 1, "will be destroyed"@) {
            Some(seq![TerraformResourceChange::Destroy])
        } else if occurs_at(s, j + 1, "is tainted, so must be replaced"@) || (occurs_at(
            s,
            j + 1,
            "must be replaced"@,
        ) && !tainted_before(s, j)) {
            Some(seq![TerraformResourceChange::Destroy, TerraformResourceChange::Create])
        } else {
            None
        }
    } else {
        None
    }
}

pub open spec fn plan_tails(s: Seq<char>) -> spec_fn(int) -> bool {
    |j: int| plan_change_kind(s, j) is Some
}

/// End of the address of a plan line that starts at `i` with `  # `.
pub open spec fn plan_address_end(s: Seq<char>, i: int) -> Option<int> {
    if occurs_at(s, i, "  # "@) {
        let a = i + "  # "@.len();
        last_in(a + 1, break_from(s, a), plan_tails(s))
    } else {
        None
    }
}

pub open spec fn plan_starts(s: Seq<char>) -> spec_fn(int) -> bool {
    |i: int| plan_address_end(s, i) is Some
}

/// Start of the leftmost planned-change announcement in a line.
pub open spec fn planned_change(s: Seq<char>) -> Option<int> {
    first_in(0, s.len() as int, plan_starts(s))
}

pub(crate) fn plan_change_kind_at(v: &Vec<char>, j: usize) -> (r: Option<Vec<TerraformResourceChange>>)
    ensures
        match r {
            Some(c) => plan_change_kind(v@, j as int) == Some(c@),
            None => plan_change_kind(v@, j as int) is None,
        },
{
    if j >= v.len() || v[j] != ' ' {
        return None;
    }
    let b = j + 1;
    if occurs(v, b, "will be created") {
        let r = vec![TerraformResourceChange::Create];
        assert(r@ == seq![TerraformResourceChange::Create]);
        Some(r)
    } else if occurs(v, b, "will be read during apply") {
        let r = vec![TerraformResourceChange::Read];
        assert(r@ == seq![TerraformResourceChange::Read]);
        Some(r)
    } else if occurs(v, b, "will be updated in-place") {
        let r = vec![TerraformResourceChange::Update];
        assert(r@ == seq![TerraformResourceChange::Update]);
        Some(r)
    } else if occurs(v, b, "will be destroyed") {
        let r = vec![TerraformResourceChange::Destroy];
        assert(r@ == seq![TerraformResourceChange::Destroy]);
        Some(r)
    } else if occurs(v, b, "is tainted, so must be replaced") || (occurs(v, b, "must be replaced")
        && !tainted_before_at(v, j)) {
        let r = vec![TerraformResourceChange::Destroy, TerraformResourceChange::Create];
        assert(r@ == seq![TerraformResourceChange::Destroy, TerraformResourceChange::Create]);
        Some(r)
    } else {
        None
    }
}

pub(crate) fn plan_address_end_at(v: &Vec<char>, i: usize) -> (r: Option<usize>)
    ensures
        as_int(r) == plan_address_end(v@, i as int),
        r matches Some(j) ==> i + "  # "@.len() < j < v@.len(),
{
    if !occurs(v, i, "  # ") {
        return None;
    }
    let a = i + "  # ".unicode_len();
    let nl = break_at(v, a);
    if a >= nl {
        return None;
    }
    let mut k = nl;
    while k > a + 1
        invariant
            a < nl <= v@.len(),
            nl == break_from(v@, a as int),
            a == i + "  # "@.len(),
            occurs_at(v@, i as int, "  # "@),
            a + 1 <= k <= nl,
            last_in(a + 1, nl as int, plan_tails(v@)) == last_in(a + 1, k as int, plan_tails(v@)),
        decreases k,
    {
        if plan_change_kind_at(v, k - 1).is_some() {
            assert(plan_tails(v@)((k - 1) as int));
            return Some(k - 1);
        }
        k = k - 1;
    }
    None
}

pub fn match_planned_change(v: &Vec<char>) -> (r: Option<usize>)
    ensures
        as_int(r) == planned_change(v@),
        r matches Some(i) ==> i < v@.len(),
{
    let mut k: usize = 0;
    while k < v.len()
        invariant
            k <= v@.len(),
            first_in(0, v@.len() as int, plan_starts(v@)) == first_in(
                k as int,
                v@.len() as int,
                plan_starts(v@),
            ),
        decreases v@.len() - k,
    {
        if plan_address_end_at(v, k).is_some() {
            assert(plan_starts(v@)(k as int));
            return Some(k);
        }
        k = k + 1;
    }
    None
}

/// A run of digits at `k` followed by the literal `t`: the index after `t`.
pub open spec fn count_then(s: Seq<char>, k: int, t: Seq<char>) -> Option<int> {
    if 0 <= k < s.len() && is_digit(s[k]) && occurs_at(s, digits_end(s, k), t) {
        Some(digits_end(s, k) + t.len())
    } else {
        None
    }
}

/// Any character but a line break at `k`.
pub open spec fn any_char(s: Seq<char>, k: int) -> bool {
    0 <= k < s.len() && s[k] != '\n'
}

/// `Plan: <N> to add, <N> to change, <N> to destroy` and one more
/// character, starting at `i`.
pub open spec fn plan_summary_at(s: Seq<char>, i: int) -> bool {
    occurs_at(s, i, "Plan: "@) && match count_then(s, i + "Plan: "@.len(), " to add, "@) {
        Some(k2) => match count_then(s, k2, " to change, "@) {
            Some(k3) => match count_then(s, k3, " to destroy"@) {
                Some(k4) => any_char(s, k4),
                None => false,
            },
            None => false,
        },
        None => false,
    }
}

/// `Apply complete! Resources: <N> added, <N> changed, <N> destroyed` and one
/// more character, starting at `i`.
pub open spec fn apply_summary_at(s: Seq<char>, i: int) -> bool {
    occurs_at(s, i, "Apply complete! Resources: "@) && match count_then(
        s,
        i + "Apply complete! Resources: "@.len(),
        " added, "@,
    ) {
        Some(k2) => match count_then(s, k2, " changed, "@) {
            Some(k3) => match count_then(s, k3, " destroyed"@) {
                Some(k4) => any_char(s, k4),
                None => false,
            },
            None => false,
        },
        None => false,
    }
}

/// `Destroy complete! Resources: <N> destroyed` and one more character,
/// starting at `i`.
pub open spec fn destroy_summary_at(s: Seq<char>, i: int) -> bool {
    occurs_at(s, i, "Destroy complete! Resources: "@) && match count_then(
        s,
        i + "Destroy complete! Resources: "@.len(),
        " destroyed"@,
    ) {
        Some(k2) => any_char(s, k2),
        None => false,
    }
}

pub open spec fn plan_summaries(s: Seq<char>) -> spec_fn(int) -> bool {
    |i: int| plan_summary_at(s, i)
}

pub open spec fn apply_summaries(s: Seq<char>) -> spec_fn(int) -> bool {
    |i: int| apply_summary_at(s, i)
}

pub open spec fn destroy_summaries(s: Seq<char>) -> spec_fn(int) -> bool {
    |i: int| destroy_summary_at(s, i)
}

/// Start of the leftmost plan summary in a line.
pub open spec fn plan_summary(s: Seq<char>) -> Option<int> {
    first_in(0, s.len() as int, plan_summaries(s))
}

/// Start of the leftmost apply summary in a line.
pub open spec fn apply_summary(s: Seq<char>) -> Option<int> {
    first_in(0, s.len() as int, apply_summaries(s))
}

/// Start of the leftmost destroy summary in a line.
pub open spec fn destroy_summary(s: Seq<char>) -> Option<int> {
    first_in(0, s.len() as int, destroy_summaries(s))
}

pub fn count_then_at(v: &Vec<char>, k: usize, t: &str) -> (r: Option<usize>)
    ensures
        as_int(r) == count_then(v@, k as int, t@),
        r matches Some(x) ==> x <= v@.len(),
{
    if k >= v.len() || !('0' <= v[k] && v[k] <= '9') {
        return None;
    }
    let d = digits_end_at(v, k);
    if occurs(v, d, t) {
        Some(d + t.unicode_len())
    } else {
        None
    }
}

fn any_char_at(v: &Vec<char>, k: usize) -> (r: bool)
    ensures
        r == any_char(v@, k as int),
{
    k < v.len() && v[k] != '\n'
}

fn plan_summary_at_exec(v: &Vec<char>, i: usize) -> (r: bool)
    ensures
        r == plan_summary_at(v@, i as int),
{
    if !occurs(v, i, "Plan: ") {
        return false;
    }
    match count_then_at(v, i + "Plan: ".unicode_len(), " to add, ") {
        Some(k2) => match count_then_at(v, k2, " to change, ") {
            Some(k3) => match count_then_at(v, k3, " to destroy") {
                Some(k4) => any_char_at(v, k4),
                None => false,
            },
            None => false,
        },
        None => false,
    }
}

fn apply_summary_at_exec(v: &Vec<char>, i: usize) -> (r: bool)
    ensures
        r == apply_summary_at(v@, i as int),
{
    if !occurs(v, i, "Apply complete! Resources: ") {
        return false;
    }
    match count_then_at(v, i + "Apply complete! Resources: ".unicode_len(), " added, ") {
        Some(k2) => match count_then_at(v, k2, " changed, ") {
            Some(k3) => match count_then_at(v, k3, " destroyed") {
                Some(k4) => any_char_at(v, k4),
                None => false,
            },
            None => false,
        },
        None => false,
    }
}

fn destroy_summary_at_exec(v: &Vec<char>, i: usize) -> (r: bool)
    ensures
        r == destroy_summary_at(v@, i as int),
{
    if !occurs(v, i, "Destroy complete! Resources: ") {
        return false;
    }
    match count_then_at(v, i + "Destroy complete! Resources: ".unicode_len(), " destroyed") {
        Some(k2) => any_char_at(v, k2),
        None => false,
    }
}

pub fn match_plan_summary(v: &Vec<char>) -> (r: Option<usize>)
    ensures
        as_int(r) == plan_summary(v@),
        r matches Some(i) ==> i < v@.len(),
{
    let mut k: usize = 0;
    while k < v.len()
        invariant
            k <= v@.len(),
            first_in(0, v@.len() as int, plan_summaries(v@)) == first_in(
                k as int,
                v@.len() as int,
                plan_summaries(v@),
            ),
        decreases v@.len() - k,
    {
        if plan_summary_at_exec(v, k) {
            assert(plan_summaries(v@)(k as int));
            return Some(k);
        }
        k = k + 1;
    }
    None
}

pub fn match_apply_summary(v: &Vec<char>) -> (r: Option<usize>)
    ensures
        as_int(r) == apply_summary(v@),
        r matches Some(i) ==> i < v@.len(),
{
    let mut k: usize = 0;
    while k < v.len()
        invariant
            k <= v@.len(),
            first_in(0, v@.len() as int, apply_summaries(v@)) == first_in(
                k as int,
                v@.len() as int,
                apply_summaries(v@),
            ),
        decreases v@.len() - k,
    {
        if apply_summary_at_exec(v, k) {
            assert(apply_summaries(v@)(k as int));
            return Some(k);
        }
        k = k + 1;
    }
    None
}

pub fn match_destroy_summary(v: &Vec<char>) -> (r: Option<usize>)
    ensures
        as_int(r) == destroy_summary(v@),
        r matches Some(i) ==> i < v@.len(),
{
    let mut k: usize = 0;
    while k < v.len()
        invariant
            k <= v@.len(),
            first_in(0, v@.len() as int, destroy_summaries(v@)) == first_in(
                k as int,
                v@.len() as int,
                destroy_summaries(v@),
            ),
        decreases v@.len() - k,
    {
        if destroy_summary_at_exec(v, k) {
            assert(destroy_summaries(v@)(k as int));
            return Some(k);
        }
        k = k + 1;
    }
    None
}

/// A replacement announced without the `  # ` marker, when the address
/// ends at `j`: ` is tainted, so must be replaced`, or ` must be replaced`
/// where the address does not end in ` is tainted, so`.
pub open spec fn replace_tail(s: Seq<char>, j: int) -> bool {
    0 <= j < s.len() && s[j] == ' ' && (occurs_at(s, j + 1, "is tainted, so must be replaced"@)
        || (occurs_at(s, j + 1, "must be replaced"@) && !tainted_before(s, j)))
}

pub open spec fn replace_tails(s: Seq<char>) -> spec_fn(int) -> bool {
    |j: int| replace_tail(s, j)
}

/// End of the address of a replacement whose address starts at `i`.
pub open spec fn replace_end(s: Seq<char>, i: int) -> Option<int> {
    last_in(i + 1, break_from(s, i), replace_tails(s))
}

pub open spec fn replace_starts(s: Seq<char>) -> spec_fn(int) -> bool {
    |i: int| replace_end(s, i) is Some
}

/// Start of the leftmost replacement announced without the marker.
pub open spec fn replacement(s: Seq<char>) -> Option<int> {
    first_in(0, s.len() as int, replace_starts(s))
}

fn replace_tail_at(v: &Vec<char>, j: usize) -> (r: bool)
    ensures
        r == replace_tail(v@, j as int),
{
    j < v.len() && v[j] == ' ' && (occurs(v, j + 1, "is tainted, so must be replaced") || (occurs(
        v,
        j + 1,
        "must be replaced",
    ) && !tainted_before_at(v, j)))
}

pub(crate) fn replace_end_at(v: &Vec<char>, i: usize) -> (r: Option<usize>)
    requires
        i < v@.len(),
    ensures
        as_int(r) == replace_end(v@, i as int),
        r matches Some(j) ==> i < j < v@.len(),
{
    let nl = break_at(v, i);
    let mut k = nl;
    while k > i + 1
        invariant
            i < v@.len(),
            v@.len() == v.len(),
            i <= nl <= v@.len(),
            nl == break_from(v@, i as int),
            i + 1 <= k <= nl || k == nl,
            last_in(i + 1, nl as int, replace_tails(v@)) == last_in(
                i + 1,
                k as int,
                replace_tails(v@),
            ),
        decreases k,
    {
        if replace_tail_at(v, k - 1) {
            assert(replace_tails(v@)((k - 1) as int));
            return Some(k - 1);
        }
        k = k - 1;
    }
    None
}

pub fn match_replacement(v: &Vec<char>) -> (r: Option<usize>)
    ensures
        as_int(r) == replacement(v@),
        r matches Some(i) ==> i < v@.len(),
{
    let mut k: usize = 0;
    while k < v.len()
        invariant
            k <= v@.len(),
            first_in(0, v@.len() as int, replace_starts(v@)) == first_in(
                k as int,
                v@.len() as int,
                replace_starts(v@),
            ),
        decreases v@.len() - k,
    {
        if replace_end_at(v, k).is_some() {
            assert(replace_starts(v@)(k as int));
            return Some(k);
        }
        k = k + 1;
    }
    None
}

pub open spec fn opens(s: Seq<char>) -> spec_fn(int) -> bool {
    |g: int| occurs_at(s, g, " ("@)
}

/// End of the address proper in the text before `j`: where that text ends
/// in a generation ` (<generation>)`, the address stops before it (at the
/// last ` (`); otherwise it is the whole text.
pub open spec fn address_end(s: Seq<char>, j: int) -> int {
    if 1 <= j <= s.len() && s[j - 1] == ')' {
        match last_in(1, j - 1, opens(s)) {
            Some(g) => g,
            None => j,
        }
    } else {
        j
    }
}

pub(crate) fn address_end_at(v: &Vec<char>, j: usize) -> (r: usize)
    requires
        1 <= j <= v@.len(),
    ensures
        r as int == address_end(v@, j as int),
        1 <= r <= j,
{
    if j < 2 || v[j - 1] != ')' {
        return j;
    }
    let mut k = j - 1;
    while k > 1
        invariant
            1 <= j <= v@.len(),
            v@[j - 1] == ')',
            1 <= k <= j - 1,
            last_in(1, j - 1, opens(v@)) == last_in(1, k as int, opens(v@)),
        decreases k,
    {
        if occurs(v, k - 1, " (") {
            assert(opens(v@)((k - 1) as int));
            return k - 1;
        }
        k = k - 1;
    }
    j
}

} // verus!
