use cargo_expand::probe::help_requested;
use cargo_expand::probe::probe_decision;
use cargo_expand::probe::probe_outcome;
use cargo_expand::probe::should_probe_highlighter;
use cargo_expand::probe::ProbeDecision;

fn sv(args: &[&str]) -> Vec<String> {
    args.iter().map(|s| s.to_string()).collect()
}

#[test]
fn help_request_forces_absent() {
    let path = "/usr/bin/rustfmt".to_string();
    assert!(matches!(probe_decision(true, Some(&path)), ProbeDecision::Absent));
    assert!(matches!(probe_decision(true, None), ProbeDecision::Absent));
}

#[test]
fn empty_override_forces_absent() {
    let empty = String::new();
    assert!(matches!(probe_decision(false, Some(&empty)), ProbeDecision::Absent));
}

#[test]
fn nonempty_override_resolves_verbatim() {
    let path = "/opt/tools/rustfmt".to_string();
    match probe_decision(false, Some(&path)) {
        ProbeDecision::Resolved(p) => assert_eq!(p, "/opt/tools/rustfmt"),
        _ => panic!("expected the override to resolve the tool"),
    }
}

#[test]
fn no_override_runs_the_probe() {
    assert!(matches!(probe_decision(false, None), ProbeDecision::RunProbe));
}

#[test]
fn probe_success_resolves_to_tool_name() {
    let tool = "pygmentize".to_string();
    assert_eq!(probe_outcome(&tool, Some(true)), Some("pygmentize".to_string()));
}

#[test]
fn probe_failure_is_absent_never_fatal() {
    let tool = "pygmentize".to_string();
    assert_eq!(probe_outcome(&tool, Some(false)), None);
    assert_eq!(probe_outcome(&tool, None), None);
}

#[test]
fn help_flag_detected_anywhere() {
    assert!(help_requested(&sv(&["cargo-expand", "expand", "--help"])));
    assert!(help_requested(&sv(&["cargo-expand", "--help", "expand"])));
    assert!(!help_requested(&sv(&["cargo-expand", "expand", "--helpful"])));
    assert!(!help_requested(&sv(&["cargo-expand", "expand"])));
}

#[test]
fn highlighter_needs_terminal_and_color() {
    let plain = sv(&["cargo-expand", "expand"]);
    assert!(should_probe_highlighter(&plain, true));
    assert!(!should_probe_highlighter(&plain, false));
    let no_color = sv(&["cargo-expand", "expand", "--color=never"]);
    assert!(!should_probe_highlighter(&no_color, true));
    let pair = sv(&["cargo-expand", "expand", "--color", "never"]);
    assert!(!should_probe_highlighter(&pair, true));
    let always = sv(&["cargo-expand", "expand", "--color=always"]);
    assert!(should_probe_highlighter(&always, true));
}
