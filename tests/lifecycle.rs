use terraform::lifecycle::{
    apply_args, destroy_args, init_args, plan_args, stderr_event, stdout_event,
};
use terraform::{Phase, TerraformResourceChange, TerraformResourceStatus, TerraformSourceStream};

#[test]
fn init_arguments() {
    assert_eq!(init_args(), vec!["init", "-force-copy", "-no-color"]);
}

#[test]
fn plan_arguments() {
    assert_eq!(plan_args("out.plan"), vec!["plan", "-input=false", "-out=out.plan", "-no-color"]);
}

#[test]
fn apply_arguments() {
    assert_eq!(
        apply_args("out.plan"),
        vec!["apply", "-auto-approve", "-input=false", "-no-color", "out.plan"]
    );
}

#[test]
fn destroy_arguments() {
    assert_eq!(destroy_args(), vec!["destroy", "-auto-approve", "-no-color"]);
}

#[test]
fn phase_names() {
    assert_eq!(Phase::Init.name(), "init");
    assert_eq!(Phase::Plan.name(), "plan");
    assert_eq!(Phase::Apply.name(), "apply");
    assert_eq!(Phase::Destroy.name(), "destroy");
}

#[test]
fn init_stdout_is_not_classified() {
    let e = stdout_event(Phase::Init, "Plan: 1 to add, 0 to change, 0 to destroy.".to_string());
    assert_eq!(e.command, "init");
    assert_eq!(e.status, None);
    assert_eq!(e.create_count, None);
    assert_eq!(e.source_stream, TerraformSourceStream::Stdout);
}

#[test]
fn plan_stdout_is_classified_and_tagged() {
    let e = stdout_event(Phase::Plan, "  # aws_instance.web will be created".to_string());
    assert_eq!(e.command, "plan");
    assert_eq!(e.status, Some(TerraformResourceStatus::Planned));
    assert_eq!(e.change, vec![TerraformResourceChange::Create]);
}

#[test]
fn destroy_stdout_uses_apply_grammar() {
    let e = stdout_event(Phase::Destroy, "aws_instance.web: Destroying... [id=i-1]".to_string());
    assert_eq!(e.command, "destroy");
    assert_eq!(e.status, Some(TerraformResourceStatus::Started));
    assert_eq!(e.change, vec![TerraformResourceChange::Destroy]);
    let e = stdout_event(Phase::Apply, "aws_instance.web: Creating...".to_string());
    assert_eq!(e.command, "apply");
    assert_eq!(e.status, Some(TerraformResourceStatus::Started));
}

#[test]
fn stderr_is_never_classified() {
    let e = stderr_event(Phase::Apply, "aws_instance.web: Creating...".to_string());
    assert_eq!(e.command, "apply");
    assert_eq!(e.status, None);
    assert!(e.change.is_empty());
    assert_eq!(e.resource_path, None);
    assert_eq!(e.source, "aws_instance.web: Creating...");
    assert_eq!(e.source_stream, TerraformSourceStream::Stderr);
}
