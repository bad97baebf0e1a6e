//! The lifecycle operations: the arguments each one passes to the tool, and
//! the routing of each output line to an event tagged with the operation.
use crate::classify::{apply_line_event, classify_apply_line, classify_plan_line, plan_line_event};
use crate::event::{raw_event, tagged, EventView, TerraformEvent, TerraformSourceStream};
use crate::process::texts;
use vstd::prelude::*;

verus! {

/// A lifecycle operation of the tool.
#[derive(Clone, Copy, Debug, PartialEq, Eq, Structural)]
pub enum Phase {
    Init,
    Plan,
    Apply,
    Destroy,
}

/// The name an operation's events carry.
pub open spec fn phase_name(p: Phase) -> Seq<char> {
    match p {
        Phase::Init => "init"@,
        Phase::Plan => "plan"@,
        Phase::Apply => "apply"@,
        Phase::Destroy => "destroy"@,
    }
}

impl Phase {
    pub fn name(&self) -> (r: String)
        ensures
            r@ == phase_name(*self),
    {
        match self {
            Phase::Init => String::from_str("init"),
            Phase::Plan => String::from_str("plan"),
            Phase::Apply => String::from_str("apply"),
            Phase::Destroy => String::from_str("destroy"),
        }
    }
}

/// Arguments of `init`.
pub fn init_args() -> (r: Vec<String>)
    ensures
        texts(r@) == seq!["init"@, "-force-copy"@, "-no-color"@],
{
    let r = vec![
        String::from_str("init"),
        String::from_str("-force-copy"),
        String::from_str("-no-color"),
    ];
    assert(texts(r@) =~= seq!["init"@, "-force-copy"@, "-no-color"@]);
    r
}

/// Arguments of `plan`, which writes the plan to `plan_path`.
pub fn plan_args(plan_path: &str) -> (r: Vec<String>)
    ensures
        texts(r@) == seq!["plan"@, "-input=false"@, "-out="@ + plan_path@, "-no-color"@],
{
    let out = String::from_str("-out=").concat(plan_path);
    let r = vec![
        String::from_str("plan"),
        String::from_str("-input=false"),
        out,
        String::from_str("-no-color"),
    ];
    assert(texts(r@) =~= seq!["plan"@, "-input=false"@, "-out="@ + plan_path@, "-no-color"@]);
    r
}

/// Arguments of `apply`, which executes the plan at `plan_path`.
pub fn apply_args(plan_path: &str) -> (r: Vec<String>)
    ensures
        texts(r@) == seq![
            "apply"@,
            "-auto-approve"@,
            "-input=false"@,
            "-no-color"@,
            plan_path@,
        ],
{
    let r = vec![
        String::from_str("apply"),
        String::from_str("-auto-approve"),
        String::from_str("-input=false"),
        String::from_str("-no-color"),
        String::from_str(plan_path),
    ];
    assert(texts(r@) =~= seq![
        "apply"@,
        "-auto-approve"@,
        "-input=false"@,
        "-no-color"@,
        plan_path@,
    ]);
    r
}

/// Arguments of `destroy`.
pub fn destroy_args() -> (r: Vec<String>)
    ensures
        texts(r@) == seq!["destroy"@, "-auto-approve"@, "-no-color"@],
{
    let r = vec![
        String::from_str("destroy"),
        String::from_str("-auto-approve"),
        String::from_str("-no-color"),
    ];
    assert(texts(r@) =~= seq!["destroy"@, "-auto-approve"@, "-no-color"@]);
    r
}

/// The untagged event of a line of standard output: `init` output is passed
/// on as it is, `plan` output goes through the plan classifier, `apply` and
/// `destroy` output through the apply classifier.
pub open spec fn stdout_line_event(p: Phase, s: Seq<char>) -> EventView {
    match p {
        Phase::Init => raw_event(s, TerraformSourceStream::Stdout),
        Phase::Plan => plan_line_event(s),
        _ => apply_line_event(s),
    }
}

/// The event of a line that an operation wrote to standard output.
pub fn stdout_event(phase: Phase, line: String) -> (r: TerraformEvent)
    ensures
        r@ == tagged(stdout_line_event(phase, line@), phase_name(phase)),
{
    let mut e = match phase {
        Phase::Init => TerraformEvent {
            change: Vec::new(),
            status: None,
            resource_path: None,
            id_key: None,
            id_value: None,
            create_count: None,
            update_count: None,
            delete_count: None,
            command: String::new(),
            source: line,
            source_stream: TerraformSourceStream::Stdout,
        },
        Phase::Plan => classify_plan_line(line),
        _ => classify_apply_line(line),
    };
    e.command = phase.name();
    e
}

/// The event of a line that an operation wrote to standard error: never
/// classified, passed on as it is.
pub fn stderr_event(phase: Phase, line: String) -> (r: TerraformEvent)
    ensures
        r@ == tagged(raw_event(line@, TerraformSourceStream::Stderr), phase_name(phase)),
{
    TerraformEvent {
        change: Vec::new(),
        status: None,
        resource_path: None,
        id_key: None,
        id_value: None,
        create_count: None,
        update_count: None,
        delete_count: None,
        command: phase.name(),
        source: line,
        source_stream: TerraformSourceStream::Stderr,
    }
}

} // verus!
