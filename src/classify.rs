//! Classification of single output lines into events.
use crate::event::{
    raw_event, well_formed, EventView, TerraformEvent, TerraformResourceChange,
    TerraformResourceStatus, TerraformSourceStream,
};
use crate::grammar::{
    action_done, action_in_progress, action_started, address_end, address_end_at, apply_summaries,
    apply_summary, count_then, count_then_at, destroy_summaries, destroy_summary, done_tails,
    done_verb, done_verb_at, id_suffix, id_suffix_at, match_action_done, match_action_in_progress,
    match_action_started, match_apply_summary, match_destroy_summary, match_plan_summary,
    match_planned_change, match_replacement, plan_address_end, plan_address_end_at,
    plan_change_kind, plan_change_kind_at, plan_starts, plan_summaries, plan_summary, plan_tails,
    planned_change, replace_end, replace_end_at, replace_starts, replacement, start_tails,
    start_tail, start_verb, start_verb_at, still_body, still_body_at, still_tails, still_verb, still_verb_at,
};
use crate::text::{
    as_u32, break_from, digits_end, digits_end_at, digits_value, lemma_digits_run,
    lemma_first_in_found, lemma_last_in_found, lemma_last_in_top, lemma_no_break, lemma_not_at,
    parse_count, to_chars, word_end, word_end_at,
};
use vstd::prelude::*;

verus! {

/// What `str::trim` makes of a text: the text without its leading and
/// trailing white space.
pub uninterp spec fn trimmed(s: Seq<char>) -> Seq<char>;

/// Relies on `str::trim`: removes leading and trailing white space; the
/// result depends on the characters alone.
#[verifier::external_body]
fn trim_text(s: &str) -> (r: String)
    ensures
        r@ == trimmed(s@),
{
    s.trim().to_string()
}

/// The captured text `s[a..b]`, trimmed.
pub open spec fn field(s: Seq<char>, a: int, b: int) -> Seq<char> {
    trimmed(s.subrange(a, b))
}

fn field_text(line: &str, a: usize, b: usize) -> (r: String)
    requires
        a <= b <= line@.len(),
    ensures
        r@ == field(line@, a as int, b as int),
{
    trim_text(line.substring_char(a, b))
}

/// The count written by the digits that start at `k`, if it fits in `u32`.
pub open spec fn count_at(s: Seq<char>, k: int) -> Option<u32> {
    as_u32(digits_value(s.subrange(k, digits_end(s, k))))
}

fn count_at_exec(v: &Vec<char>, k: usize) -> (r: Option<u32>)
    requires
        k <= v@.len(),
    ensures
        r == count_at(v@, k as int),
{
    let d = digits_end_at(v, k);
    proof {
        lemma_digits_run(v@, k as int);
    }
    parse_count(v, k, d)
}

/// A summary event: status `Completed` and three optional counts.
pub open spec fn summary_event(
    s: Seq<char>,
    create: Option<u32>,
    update: Option<u32>,
    delete: Option<u32>,
) -> EventView {
    EventView {
        status: Some(TerraformResourceStatus::Completed),
        create_count: create,
        update_count: update,
        delete_count: delete,
        ..raw_event(s, TerraformSourceStream::Stdout)
    }
}

/// An event about one resource, whose address spans `0..j` of the line.
pub open spec fn resource_event(
    s: Seq<char>,
    status: TerraformResourceStatus,
    change: Seq<TerraformResourceChange>,
    a: int,
    j: int,
) -> EventView {
    EventView {
        change,
        status: Some(status),
        resource_path: Some(field(s, a, j)),
        ..raw_event(s, TerraformSourceStream::Stdout)
    }
}

/// The same event with the identifying pair `s[ka..kb]` = `s[va..vb]`.
pub open spec fn with_id(e: EventView, s: Seq<char>, ka: int, kb: int, va: int, vb: int) -> EventView {
    EventView { id_key: Some(field(s, ka, kb)), id_value: Some(field(s, va, vb)), ..e }
}

/// The event of a line of plan output.
pub open spec fn plan_line_event(s: Seq<char>) -> EventView {
    match planned_change(s) {
        Some(i) => {
            let j = plan_address_end(s, i).unwrap();
            resource_event(
                s,
                TerraformResourceStatus::Planned,
                plan_change_kind(s, j).unwrap(),
                i + "  # "@.len(),
                j,
            )
        },
        None => match replacement(s) {
            Some(i) => resource_event(
                s,
                TerraformResourceStatus::Planned,
                seq![TerraformResourceChange::Destroy, TerraformResourceChange::Create],
                i,
                replace_end(s, i).unwrap(),
            ),
            None => match plan_summary(s) {
            Some(i) => {
                let k1 = i + "Plan: "@.len();
                let k2 = count_then(s, k1, " to add, "@).unwrap();
                let k3 = count_then(s, k2, " to change, "@).unwrap();
                summary_event(s, count_at(s, k1), count_at(s, k2), count_at(s, k3))
            },
            None => EventView {
                status: Some(TerraformResourceStatus::Planned),
                ..raw_event(s, TerraformSourceStream::Stdout)
            },
        },
        },
    }
}

/// The event of a line that starts an action, whose address (with its
/// generation, if any) ends at `j`.
pub open spec fn started_event(s: Seq<char>, j: int) -> EventView {
    let (t, c) = start_verb(s, j + ": "@.len()).unwrap();
    let k = j + ": "@.len() + t.len() + "..."@.len();
    let e = resource_event(s, TerraformResourceStatus::Started, seq![c], 0, address_end(s, j));
    match id_suffix(s, k) {
        Some(Some((a, m))) => with_id(e, s, a, m, m + 1, s.len() - 1),
        _ => e,
    }
}

/// The event of a progress line, whose address ends at `j`.
pub open spec fn progress_event(s: Seq<char>, j: int) -> EventView {
    let (t, c) = still_verb(s, j + ": Still "@.len()).unwrap();
    let b = j + ": Still "@.len() + t.len() + "... ["@.len();
    let e = resource_event(s, TerraformResourceStatus::InProgress, seq![c], 0, j);
    match still_body(s, b) {
        Some(Some((m, p))) => with_id(e, s, b, m, m + 1, p),
        _ => e,
    }
}

/// The event of a line that reports an action complete, whose address ends
/// at `j`.
pub open spec fn done_event(s: Seq<char>, j: int) -> EventView {
    let (t, c) = done_verb(s, j + ": "@.len()).unwrap();
    let w = word_end(s, j + ": "@.len() + t.len() + " complete after "@.len());
    let e = resource_event(s, TerraformResourceStatus::Done, seq![c], 0, j);
    match id_suffix(s, w) {
        Some(Some((a, m))) => with_id(e, s, a, m, m + 1, s.len() - 1),
        _ => e,
    }
}

/// The event of a line of apply or destroy output.
pub open spec fn apply_line_event(s: Seq<char>) -> EventView {
    if let Some(j) = action_started(s) {
        started_event(s, j)
    } else if let Some(j) = action_in_progress(s) {
        progress_event(s, j)
    } else if let Some(j) = action_done(s) {
        done_event(s, j)
    } else if let Some(i) = apply_summary(s) {
        let k1 = i + "Apply complete! Resources: "@.len();
        let k2 = count_then(s, k1, " added, "@).unwrap();
        let k3 = count_then(s, k2, " changed, "@).unwrap();
        summary_event(s, count_at(s, k1), count_at(s, k2), count_at(s, k3))
    } else if let Some(i) = destroy_summary(s) {
        summary_event(s, None, None, count_at(s, i + "Destroy complete! Resources: "@.len()))
    } else {
        raw_event(s, TerraformSourceStream::Stdout)
    }
}

/// Builds the event of one resource line.
fn resource_event_exec(
    line: String,
    status: TerraformResourceStatus,
    change: Vec<TerraformResourceChange>,
    a: usize,
    j: usize,
    id: Option<(usize, usize, usize, usize)>,
) -> (r: TerraformEvent)
    requires
        a <= j <= line@.len(),
        id matches Some((ka, kb, va, vb)) ==> ka <= kb <= line@.len() && va <= vb <= line@.len(),
    ensures
        r@ == match id {
            Some((ka, kb, va, vb)) => with_id(
                resource_event(line@, status, change@, a as int, j as int),
                line@,
                ka as int,
                kb as int,
                va as int,
                vb as int,
            ),
            None => resource_event(line@, status, change@, a as int, j as int),
        },
{
    let path = field_text(line.as_str(), a, j);
    let (id_key, id_value) = match id {
        Some((ka, kb, va, vb)) => (
            Some(field_text(line.as_str(), ka, kb)),
            Some(field_text(line.as_str(), va, vb)),
        ),
        None => (None, None),
    };
    TerraformEvent {
        change,
        status: Some(status),
        resource_path: Some(path),
        id_key,
        id_value,
        create_count: None,
        update_count: None,
        delete_count: None,
        command: String::new(),
        source: line,
        source_stream: TerraformSourceStream::Stdout,
    }
}

/// Builds the event of a summary line.
fn summary_event_exec(
    line: String,
    create: Option<u32>,
    update: Option<u32>,
    delete: Option<u32>,
) -> (r: TerraformEvent)
    ensures
        r@ == summary_event(line@, create, update, delete),
{
    TerraformEvent {
        change: Vec::new(),
        status: Some(TerraformResourceStatus::Completed),
        resource_path: None,
        id_key: None,
        id_value: None,
        create_count: create,
        update_count: update,
        delete_count: delete,
        command: String::new(),
        source: line,
        source_stream: TerraformSourceStream::Stdout,
    }
}

/// Builds an event that carries only its source text and, possibly, a
/// status.
fn bare_event_exec(line: String, status: Option<TerraformResourceStatus>) -> (r: TerraformEvent)
    ensures
        r@ == (EventView { status, ..raw_event(line@, TerraformSourceStream::Stdout) }),
{
    TerraformEvent {
        change: Vec::new(),
        status,
        resource_path: None,
        id_key: None,
        id_value: None,
        create_count: None,
        update_count: None,
        delete_count: None,
        command: String::new(),
        source: line,
        source_stream: TerraformSourceStream::Stdout,
    }
}

/// Classifies one line of the standard output of a plan: a planned change to
/// a resource (a replacement may come without the `  # ` marker), the plan
/// summary, or else a bare `Planned` event.
pub fn classify_plan_line(line: String) -> (r: TerraformEvent)
    ensures
        r@ == plan_line_event(line@),
        well_formed(r@),
{
    proof {
        lemma_classified_well_formed(line@);
    }
    let v = to_chars(line.as_str());
    if let Some(i) = match_planned_change(&v) {
        proof {
            lemma_first_in_found(0, v@.len() as int, plan_starts(v@));
        }
        let j = plan_address_end_at(&v, i).unwrap();
        proof {
            let a = i + "  # "@.len();
            lemma_last_in_found(a + 1, break_from(v@, a), plan_tails(v@));
        }
        let change = plan_change_kind_at(&v, j).unwrap();
        let a = i + "  # ".unicode_len();
        return resource_event_exec(line, TerraformResourceStatus::Planned, change, a, j, None);
    }
    if let Some(i) = match_replacement(&v) {
        proof {
            lemma_first_in_found(0, v@.len() as int, replace_starts(v@));
        }
        let j = replace_end_at(&v, i).unwrap();
        let change = vec![TerraformResourceChange::Destroy, TerraformResourceChange::Create];
        assert(change@ == seq![TerraformResourceChange::Destroy, TerraformResourceChange::Create]);
        return resource_event_exec(line, TerraformResourceStatus::Planned, change, i, j, None);
    }
    if let Some(i) = match_plan_summary(&v) {
        proof {
            lemma_first_in_found(0, v@.len() as int, plan_summaries(v@));
        }
        let k1 = i + "Plan: ".unicode_len();
        let k2 = count_then_at(&v, k1, " to add, ").unwrap();
        let k3 = count_then_at(&v, k2, " to change, ").unwrap();
        let create = count_at_exec(&v, k1);
        let update = count_at_exec(&v, k2);
        let delete = count_at_exec(&v, k3);
        return summary_event_exec(line, create, update, delete);
    }
    bare_event_exec(line, Some(TerraformResourceStatus::Planned))
}

/// Classifies one line of the standard output of an apply or a destroy: an
/// action started, still running or complete on a resource, the apply or
/// destroy summary, or else a bare event without status.
pub fn classify_apply_line(line: String) -> (r: TerraformEvent)
    ensures
        r@ == apply_line_event(line@),
        well_formed(r@),
{
    proof {
        lemma_classified_well_formed(line@);
    }
    let v = to_chars(line.as_str());
    let n = v.len();
    if let Some(j) = match_action_started(&v) {
        proof {
            lemma_last_in_found(1, n as int, start_tails(v@));
        }
        let (t, c) = start_verb_at(&v, j + ": ".unicode_len()).unwrap();
        let k = j + ": ".unicode_len() + t + "...".unicode_len();
        let id = match id_suffix_at(&v, k) {
            Some(Some((a, m))) => Some((a, m, m + 1, n - 1)),
            _ => None,
        };
        let change = vec![c];
        assert(change@ == seq![c]);
        let end = address_end_at(&v, j);
        return resource_event_exec(line, TerraformResourceStatus::Started, change, 0, end, id);
    }
    if let Some(j) = match_action_in_progress(&v) {
        proof {
            lemma_last_in_found(1, break_from(v@, 0), still_tails(v@));
        }
        let (t, c) = still_verb_at(&v, j + ": Still ".unicode_len()).unwrap();
        let b = j + ": Still ".unicode_len() + t + "... [".unicode_len();
        let id = match still_body_at(&v, b) {
            Some(Some((m, p))) => Some((b, m, m + 1, p)),
            _ => None,
        };
        let change = vec![c];
        assert(change@ == seq![c]);
        return resource_event_exec(line, TerraformResourceStatus::InProgress, change, 0, j, id);
    }
    if let Some(j) = match_action_done(&v) {
        proof {
            lemma_last_in_found(1, n as int, done_tails(v@));
        }
        let (t, c) = done_verb_at(&v, j + ": ".unicode_len()).unwrap();
        let w = word_end_at(&v, j + ": ".unicode_len() + t + " complete after ".unicode_len());
        let id = match id_suffix_at(&v, w) {
            Some(Some((a, m))) => Some((a, m, m + 1, n - 1)),
            _ => None,
        };
        let change = vec![c];
        assert(change@ == seq![c]);
        return resource_event_exec(line, TerraformResourceStatus::Done, change, 0, j, id);
    }
    if let Some(i) = match_apply_summary(&v) {
        proof {
            lemma_first_in_found(0, n as int, apply_summaries(v@));
        }
        let k1 = i + "Apply complete! Resources: ".unicode_len();
        let k2 = count_then_at(&v, k1, " added, ").unwrap();
        let k3 = count_then_at(&v, k2, " changed, ").unwrap();
        let create = count_at_exec(&v, k1);
        let update = count_at_exec(&v, k2);
        let delete = count_at_exec(&v, k3);
        return summary_event_exec(line, create, update, delete);
    }
    if let Some(i) = match_destroy_summary(&v) {
        proof {
            lemma_first_in_found(0, n as int, destroy_summaries(v@));
        }
        let k1 = i + "Destroy complete! Resources: ".unicode_len();
        let delete = count_at_exec(&v, k1);
        return summary_event_exec(line, None, None, delete);
    }
    bare_event_exec(line, None)
}

/// Classifying never fails: every line, matched or not, gives a
/// well-formed event. A summary carries counts and no address, a resource
/// line carries an address and no counts, and an unmatched apply line
/// carries nothing but its text.
pub proof fn lemma_classified_well_formed(s: Seq<char>)
    ensures
        well_formed(plan_line_event(s)),
        well_formed(apply_line_event(s)),
        action_started(s) is None && action_in_progress(s) is None && action_done(s) is None
            && apply_summary(s) is None && destroy_summary(s) is None ==> apply_line_event(s)
            == raw_event(s, TerraformSourceStream::Stdout),
{
}

/// A line `<address>: Creating...` gives a `Started` event for that
/// address, whose change is a creation and which carries no identifier,
/// whatever the address holds but a line break (and provided it does not
/// end in a parenthesis, which would be read as a generation).
pub proof fn lemma_creating_line(a: Seq<char>)
    requires
        a.len() >= 1,
        forall|i: int| 0 <= i < a.len() ==> a[i] != '\n',
        a.last() != ')',
    ensures
        apply_line_event(a + ": Creating..."@) == resource_event(
            a + ": Creating..."@,
            TerraformResourceStatus::Started,
            seq![TerraformResourceChange::Create],
            0,
            a.len() as int,
        ),
{
    reveal_strlit(": Creating...");
    reveal_strlit(": ");
    reveal_strlit("Creating");
    reveal_strlit("Destroying");
    reveal_strlit("...");
    let s = a + ": Creating..."@;
    let n = a.len() as int;
    assert(s.len() == n + 13);
    assert forall|i: int| 0 <= i < s.len() implies s[i] != '\n' by {
        if i >= n {
            assert(s[i] == ": Creating..."@[i - n]);
        }
    }
    lemma_no_break(s, 0);
    assert(s.subrange(n, n + 2) =~= ": "@);
    assert(s.subrange(n + 2, n + 10) =~= "Creating"@);
    assert(s.subrange(n + 10, n + 13) =~= "..."@);
    assert(s.subrange(n + 2, n + 12)[1] != "Destroying"@[1]);
    assert(start_tail(s, n));
    assert forall|j: int| n < j < s.len() implies !#[trigger] start_tails(s)(j) by {
        assert(s[j] == ": Creating..."@[j - n]);
        assert(s[j] != ':');
        if j + 2 <= s.len() {
            assert(s.subrange(j, j + 2)[0] == s[j]);
            assert(": "@[0] == ':');
        }
    }
    lemma_last_in_top(1, n, s.len() as int, start_tails(s));
}

/// A line `  # <address> will be created` gives a `Planned` event for that
/// address, whose change is a creation, whatever the address holds but a
/// line break.
pub proof fn lemma_will_be_created_line(a: Seq<char>)
    requires
        a.len() >= 1,
        forall|i: int| 0 <= i < a.len() ==> a[i] != '\n',
    ensures
        plan_line_event("  # "@ + a + " will be created"@) == resource_event(
            "  # "@ + a + " will be created"@,
            TerraformResourceStatus::Planned,
            seq![TerraformResourceChange::Create],
            4,
            a.len() + 4int,
        ),
{
    reveal_strlit("  # ");
    reveal_strlit(" will be created");
    reveal_strlit("will be created");
    reveal_strlit("will be read during apply");
    reveal_strlit("will be updated in-place");
    reveal_strlit("will be destroyed");
    reveal_strlit("is tainted, so must be replaced");
    reveal_strlit("must be replaced");
    let s = "  # "@ + a + " will be created"@;
    let n = a.len() as int;
    let e = n + 4;
    assert(s.len() == e + 16);
    assert forall|i: int| 4 <= i < s.len() implies s[i] != '\n' by {
        if i < e {
            assert(s[i] == a[i - 4]);
        } else {
            assert(s[i] == " will be created"@[i - e]);
        }
    }
    lemma_no_break(s, 4);
    assert(s.subrange(0, 4) =~= "  # "@);
    assert(s.subrange(e + 1, e + 16) =~= "will be created"@);
    assert(plan_change_kind(s, e) == Some(seq![TerraformResourceChange::Create]));
    assert forall|j: int| e < j < s.len() implies !#[trigger] plan_tails(s)(j) by {
        assert(s[j] == " will be created"@[j - e]);
        if s[j] == ' ' {
            assert(s[j + 1] == " will be created"@[j + 1 - e]);
            assert(s[j + 1] != 'w' && s[j + 1] != 'i' && s[j + 1] != 'm');
            lemma_not_at(s, j + 1, "will be created"@);
            lemma_not_at(s, j + 1, "will be read during apply"@);
            lemma_not_at(s, j + 1, "will be updated in-place"@);
            lemma_not_at(s, j + 1, "will be destroyed"@);
            lemma_not_at(s, j + 1, "is tainted, so must be replaced"@);
            lemma_not_at(s, j + 1, "must be replaced"@);
        }
    }
    lemma_last_in_top(5, e, s.len() as int, plan_tails(s));
    assert(plan_starts(s)(0));
}

} // verus!
