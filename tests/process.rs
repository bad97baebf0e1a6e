use std::collections::HashMap;
use terraform::process::{next_step, ChildState, Step};
use terraform::{Error, Process, ProcessContext, StreamProcessor};

#[test]
fn process_keeps_its_configuration() {
    let mut envs = HashMap::new();
    envs.insert("TF_LOG".to_string(), "info".to_string());
    let p = Process::new("terraform".to_string(), "./infra".to_string(), envs, 600);
    assert_eq!(p.get_binary_path(), "terraform");
    assert_eq!(p.get_working_directory(), "./infra");
    assert_eq!(p.get_envs().get("TF_LOG").map(|s| s.as_str()), Some("info"));
    assert_eq!(p.get_timeout_secs(), 600);
}

#[test]
fn running_within_deadline_is_drained() {
    assert_eq!(next_step(&ChildState::Running { elapsed_secs: 0 }, 10), Step::Drain);
    assert_eq!(next_step(&ChildState::Running { elapsed_secs: 9 }, 10), Step::Drain);
}

#[test]
fn running_past_deadline_is_killed() {
    assert_eq!(next_step(&ChildState::Running { elapsed_secs: 10 }, 10), Step::Kill);
    assert_eq!(next_step(&ChildState::Running { elapsed_secs: 0 }, 0), Step::Kill);
}

#[test]
fn exited_child_is_finished() {
    let s = ChildState::Exited { code: Some(0), signal: None };
    assert_eq!(next_step(&s, 10), Step::Finish);
    let s = ChildState::Exited { code: None, signal: Some(9) };
    assert_eq!(next_step(&s, 0), Step::Finish);
}

#[test]
fn unobservable_child_is_killed() {
    assert_eq!(next_step(&ChildState::Unknown, 10), Step::Kill);
}

#[test]
fn context_records_lines_in_order() {
    let mut c = ProcessContext::new();
    assert_eq!(c.record_stdout(Some("a".to_string())), Some("a".to_string()));
    assert_eq!(c.record_stdout(None), None);
    assert_eq!(c.record_stderr(Some("e".to_string())), Some("e".to_string()));
    assert_eq!(c.record_stdout(Some("b".to_string())), Some("b".to_string()));
    assert_eq!(c.stdout, vec!["a", "<error retrieving stream content>", "b"]);
    assert_eq!(c.stderr, vec!["e"]);
    assert_eq!(c.exit_code, None);
    c.record_exit(Some(2), None);
    assert_eq!(c.exit_code, Some(2));
    assert_eq!(c.signal_code, None);
}

#[test]
fn stream_splits_lines() {
    let mut s = StreamProcessor::new();
    let mut lines: Vec<Vec<u8>> = Vec::new();
    for b in b"one\r\ntwo\n\nthree" {
        if let Some(l) = s.feed(*b) {
            lines.push(l);
        }
    }
    assert_eq!(lines, vec![b"one".to_vec(), b"two".to_vec(), Vec::new()]);
    assert_eq!(s.finish(), Some(b"three".to_vec()));
}

#[test]
fn stream_without_trailing_text_has_no_last_line() {
    let mut s = StreamProcessor::new();
    assert_eq!(s.feed(b'x'), None);
    assert_eq!(s.feed(b'\n'), Some(b"x".to_vec()));
    assert_eq!(s.finish(), None);
}

#[test]
fn process_error_converts() {
    let e: Error = Error::from(terraform::process::Error::TimeoutError);
    assert!(matches!(e, Error::ProcessError(terraform::process::Error::TimeoutError)));
}

#[test]
fn stream_chunks_give_the_same_lines_in_order() {
    let text = b"alpha\nbeta\r\ngamma\ndel";
    let mut whole = StreamProcessor::new();
    let all = whole.feed_all(text);
    assert_eq!(all, vec![b"alpha".to_vec(), b"beta".to_vec(), b"gamma".to_vec()]);
    let mut cut = StreamProcessor::new();
    let mut parts = cut.feed_all(&text[..3]);
    assert!(parts.is_empty());
    parts.extend(cut.feed_all(&text[3..13]));
    parts.extend(cut.feed_all(&text[13..]));
    assert_eq!(parts, all);
    assert_eq!(whole.finish(), Some(b"del".to_vec()));
    assert_eq!(cut.finish(), Some(b"del".to_vec()));
}
