use terraform::{
    classify_apply_line, classify_plan_line, TerraformEvent, TerraformResourceChange,
    TerraformResourceStatus, TerraformSourceStream,
};

fn plan(line: &str) -> TerraformEvent {
    classify_plan_line(line.to_string())
}

fn apply(line: &str) -> TerraformEvent {
    classify_apply_line(line.to_string())
}

fn assert_no_counts(e: &TerraformEvent) {
    assert_eq!(e.create_count, None);
    assert_eq!(e.update_count, None);
    assert_eq!(e.delete_count, None);
}

#[test]
fn plan_will_be_created() {
    let e = plan("  # aws_instance.web will be created");
    assert_eq!(e.change, vec![TerraformResourceChange::Create]);
    assert_eq!(e.resource_path.as_deref(), Some("aws_instance.web"));
    assert_eq!(e.status, Some(TerraformResourceStatus::Planned));
    assert_eq!(e.source, "  # aws_instance.web will be created");
    assert_eq!(e.id_key, None);
    assert_no_counts(&e);
}

#[test]
fn plan_will_be_read() {
    let e = plan("  # data.aws_ami.ubuntu will be read during apply");
    assert_eq!(e.change, vec![TerraformResourceChange::Read]);
    assert_eq!(e.resource_path.as_deref(), Some("data.aws_ami.ubuntu"));
    assert_eq!(e.status, Some(TerraformResourceStatus::Planned));
}

#[test]
fn plan_will_be_updated() {
    let e = plan("  # module.app.aws_instance.web[0] will be updated in-place");
    assert_eq!(e.change, vec![TerraformResourceChange::Update]);
    assert_eq!(e.resource_path.as_deref(), Some("module.app.aws_instance.web[0]"));
}

#[test]
fn plan_will_be_destroyed() {
    let e = plan("  # aws_instance.old will be destroyed");
    assert_eq!(e.change, vec![TerraformResourceChange::Destroy]);
    assert_eq!(e.resource_path.as_deref(), Some("aws_instance.old"));
}

#[test]
fn plan_must_be_replaced() {
    let e = plan("  # aws_instance.web must be replaced");
    assert_eq!(e.change, vec![TerraformResourceChange::Destroy, TerraformResourceChange::Create]);
    assert_eq!(e.resource_path.as_deref(), Some("aws_instance.web"));
}

#[test]
fn plan_tainted_with_marker() {
    let e = plan("  # aws_instance.web is tainted, so must be replaced");
    assert_eq!(e.change, vec![TerraformResourceChange::Destroy, TerraformResourceChange::Create]);
    assert_eq!(e.resource_path.as_deref(), Some("aws_instance.web"));
    assert_eq!(e.status, Some(TerraformResourceStatus::Planned));
}

#[test]
fn plan_tainted_without_marker_keeps_order() {
    let e = plan("# x is tainted, so must be replaced");
    assert_eq!(e.change, vec![TerraformResourceChange::Destroy, TerraformResourceChange::Create]);
    assert_eq!(e.status, Some(TerraformResourceStatus::Planned));
    assert!(e.resource_path.is_some());
}

#[test]
fn plan_address_is_trimmed() {
    let e = plan("  #  aws_instance.web  will be created");
    assert_eq!(e.resource_path.as_deref(), Some("aws_instance.web"));
}

#[test]
fn plan_summary_counts() {
    let e = plan("Plan: 3 to add, 1 to change, 2 to destroy.");
    assert_eq!(e.status, Some(TerraformResourceStatus::Completed));
    assert_eq!(e.create_count, Some(3));
    assert_eq!(e.update_count, Some(1));
    assert_eq!(e.delete_count, Some(2));
    assert_eq!(e.resource_path, None);
    assert!(e.change.is_empty());
}

#[test]
fn plan_summary_many_digits() {
    let e = plan("Plan: 12 to add, 0 to change, 105 to destroy.");
    assert_eq!(e.create_count, Some(12));
    assert_eq!(e.update_count, Some(0));
    assert_eq!(e.delete_count, Some(105));
}

#[test]
fn plan_summary_count_too_large_is_absent() {
    let e = plan("Plan: 99999999999 to add, 4294967295 to change, 4294967296 to destroy.");
    assert_eq!(e.status, Some(TerraformResourceStatus::Completed));
    assert_eq!(e.create_count, None);
    assert_eq!(e.update_count, Some(4294967295));
    assert_eq!(e.delete_count, None);
}

#[test]
fn plan_unmatched_line_is_planned() {
    let e = plan("Terraform will perform the following actions:");
    assert_eq!(e.status, Some(TerraformResourceStatus::Planned));
    assert!(e.change.is_empty());
    assert_eq!(e.resource_path, None);
    assert_no_counts(&e);
    assert_eq!(e.source, "Terraform will perform the following actions:");
}

#[test]
fn plan_empty_line() {
    let e = plan("");
    assert_eq!(e.status, Some(TerraformResourceStatus::Planned));
    assert!(e.change.is_empty());
    assert_eq!(e.source, "");
}

#[test]
fn apply_creating_started() {
    let e = apply("aws_instance.web: Creating...");
    assert_eq!(e.status, Some(TerraformResourceStatus::Started));
    assert_eq!(e.change, vec![TerraformResourceChange::Create]);
    assert_eq!(e.resource_path.as_deref(), Some("aws_instance.web"));
    assert_eq!(e.id_key, None);
    assert_eq!(e.id_value, None);
    assert_no_counts(&e);
    assert_eq!(e.source_stream, TerraformSourceStream::Stdout);
}

#[test]
fn apply_started_verbs() {
    let e = apply("aws_instance.web: Destroying... [id=i-0123]");
    assert_eq!(e.change, vec![TerraformResourceChange::Destroy]);
    assert_eq!(e.id_key.as_deref(), Some("id"));
    assert_eq!(e.id_value.as_deref(), Some("i-0123"));
    let e = apply("aws_instance.web: Modifying... [id=i-0123]");
    assert_eq!(e.change, vec![TerraformResourceChange::Update]);
    let e = apply("data.aws_ami.ubuntu: Reading...");
    assert_eq!(e.change, vec![TerraformResourceChange::Read]);
    assert_eq!(e.status, Some(TerraformResourceStatus::Started));
}

#[test]
fn apply_started_with_generation() {
    let e = apply("aws_instance.web (deposed object 1a2b3c): Destroying... [id=i-0123]");
    assert_eq!(e.status, Some(TerraformResourceStatus::Started));
    assert_eq!(e.change, vec![TerraformResourceChange::Destroy]);
    assert_eq!(e.resource_path.as_deref(), Some("aws_instance.web"));
    assert_eq!(e.id_value.as_deref(), Some("i-0123"));
}

#[test]
fn apply_still_creating() {
    let e = apply("aws_instance.web: Still creating... [10s elapsed]");
    assert_eq!(e.status, Some(TerraformResourceStatus::InProgress));
    assert_eq!(e.change, vec![TerraformResourceChange::Create]);
    assert_eq!(e.resource_path.as_deref(), Some("aws_instance.web"));
    assert_eq!(e.id_key, None);
    assert_eq!(e.id_value, None);
}

#[test]
fn apply_still_destroying_with_id() {
    let e = apply("aws_instance.web: Still destroying... [id=i-0123, 1m20s elapsed]");
    assert_eq!(e.status, Some(TerraformResourceStatus::InProgress));
    assert_eq!(e.change, vec![TerraformResourceChange::Destroy]);
    assert_eq!(e.id_key.as_deref(), Some("id"));
    assert_eq!(e.id_value.as_deref(), Some("i-0123"));
}

#[test]
fn apply_creation_complete() {
    let e = apply("aws_instance.web: Creation complete after 12s [id=i-0123]");
    assert_eq!(e.status, Some(TerraformResourceStatus::Done));
    assert_eq!(e.change, vec![TerraformResourceChange::Create]);
    assert_eq!(e.resource_path.as_deref(), Some("aws_instance.web"));
    assert_eq!(e.id_key.as_deref(), Some("id"));
    assert_eq!(e.id_value.as_deref(), Some("i-0123"));
}

#[test]
fn apply_complete_nouns() {
    let e = apply("aws_instance.web: Destruction complete after 3s");
    assert_eq!(e.status, Some(TerraformResourceStatus::Done));
    assert_eq!(e.change, vec![TerraformResourceChange::Destroy]);
    assert_eq!(e.id_key, None);
    let e = apply("aws_instance.web: Modifications complete after 1m5s [name=web]");
    assert_eq!(e.change, vec![TerraformResourceChange::Update]);
    assert_eq!(e.id_key.as_deref(), Some("name"));
    assert_eq!(e.id_value.as_deref(), Some("web"));
    let e = apply("data.aws_ami.ubuntu: Read complete after 0s [id=ami-1]");
    assert_eq!(e.change, vec![TerraformResourceChange::Read]);
}

#[test]
fn apply_id_key_takes_last_equals_sign() {
    let e = apply("aws_instance.web: Creation complete after 2s [tag=a=b]");
    assert_eq!(e.id_key.as_deref(), Some("tag=a"));
    assert_eq!(e.id_value.as_deref(), Some("b"));
}

#[test]
fn apply_summary_counts() {
    let e = apply("Apply complete! Resources: 2 added, 1 changed, 0 destroyed.");
    assert_eq!(e.status, Some(TerraformResourceStatus::Completed));
    assert_eq!(e.create_count, Some(2));
    assert_eq!(e.update_count, Some(1));
    assert_eq!(e.delete_count, Some(0));
    assert_eq!(e.resource_path, None);
}

#[test]
fn destroy_summary_counts() {
    let e = apply("Destroy complete! Resources: 7 destroyed.");
    assert_eq!(e.status, Some(TerraformResourceStatus::Completed));
    assert_eq!(e.create_count, None);
    assert_eq!(e.update_count, None);
    assert_eq!(e.delete_count, Some(7));
}

#[test]
fn apply_unknown_verb_is_raw() {
    let e = apply("aws_instance.web: Exploding...");
    assert_eq!(e.status, None);
    assert!(e.change.is_empty());
    assert_eq!(e.resource_path, None);
    assert_eq!(e.id_key, None);
    assert_no_counts(&e);
    assert_eq!(e.source, "aws_instance.web: Exploding...");
}

#[test]
fn apply_unmatched_lines_are_raw() {
    for line in ["", "Warning: Argument is deprecated", ": Creating...", "x: Creating... [noequals]"] {
        let e = apply(line);
        assert_eq!(e.status, None);
        assert!(e.change.is_empty());
        assert_eq!(e.resource_path, None);
        assert_eq!(e.id_key, None);
        assert_eq!(e.id_value, None);
        assert_no_counts(&e);
        assert_eq!(e.source, line);
    }
}

#[test]
fn apply_line_with_non_ascii_text() {
    let e = apply("module.é.aws_instance.ü: Creating... [id=ß]");
    assert_eq!(e.resource_path.as_deref(), Some("module.é.aws_instance.ü"));
    assert_eq!(e.id_value.as_deref(), Some("ß"));
}

#[test]
fn default_event_is_empty() {
    let e = TerraformEvent::default();
    assert!(e.change.is_empty());
    assert_eq!(e.status, None);
    assert_eq!(e.command, "");
    assert_eq!(e.source, "");
    assert_eq!(e.source_stream, TerraformSourceStream::Stdout);
}

#[test]
fn apply_started_parenthesis_without_generation() {
    let e = apply("aws_instance.web(x): Creating...");
    assert_eq!(e.resource_path.as_deref(), Some("aws_instance.web(x)"));
}
