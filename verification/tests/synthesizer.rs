use cargo_expand::args::color_never;
use cargo_expand::args::wrap_args;

fn sv(args: &[&str]) -> Vec<String> {
    args.iter().map(|s| s.to_string()).collect()
}

#[test]
fn minimal_invocation_no_color_terminal() {
    let argv = sv(&["cargo-expand", "expand"]);
    let out = wrap_args(&argv, None, false);
    assert_eq!(
        out,
        sv(&["rustc", "--color=never", "--", "-Zunstable-options", "--pretty=expanded"])
    );
}

#[test]
fn minimal_invocation_color_terminal() {
    let argv = sv(&["cargo-expand", "expand"]);
    let out = wrap_args(&argv, None, true);
    assert_eq!(
        out,
        sv(&["rustc", "--color=always", "--", "-Zunstable-options", "--pretty=expanded"])
    );
}

#[test]
fn no_separator_tokens_kept_in_order() {
    let argv = sv(&["cargo-expand", "expand", "--lib", "--features", "extra"]);
    let out = wrap_args(&argv, None, false);
    assert_eq!(
        out,
        sv(&[
            "rustc",
            "--lib",
            "--features",
            "extra",
            "--color=never",
            "--",
            "-Zunstable-options",
            "--pretty=expanded",
        ])
    );
}

#[test]
fn separator_suffix_passed_through_verbatim() {
    let argv = sv(&["cargo-expand", "expand", "--lib", "--", "--cfg", "demo"]);
    let out = wrap_args(&argv, None, false);
    assert_eq!(
        out,
        sv(&[
            "rustc",
            "--lib",
            "--color=never",
            "--",
            "-Zunstable-options",
            "--pretty=expanded",
            "--cfg",
            "demo",
        ])
    );
}

#[test]
fn trailing_test_flag_injects_default_target() {
    let argv = sv(&["cargo-expand", "expand", "--test"]);
    let out = wrap_args(&argv, None, false);
    assert_eq!(
        out,
        sv(&["rustc", "--test", "test", "--color=never", "--", "-Zunstable-options", "--pretty=expanded"])
    );
}

#[test]
fn trailing_example_flag_injects_default_target() {
    let argv = sv(&["cargo-expand", "expand", "--example"]);
    let out = wrap_args(&argv, None, false);
    assert_eq!(
        out,
        sv(&[
            "rustc",
            "--example",
            "example",
            "--color=never",
            "--",
            "-Zunstable-options",
            "--pretty=expanded",
        ])
    );
}

#[test]
fn named_test_target_gets_no_injection() {
    let argv = sv(&["cargo-expand", "expand", "--test", "mytest"]);
    let out = wrap_args(&argv, None, false);
    assert_eq!(
        out,
        sv(&[
            "rustc",
            "--test",
            "mytest",
            "--color=never",
            "--",
            "-Zunstable-options",
            "--pretty=expanded",
        ])
    );
}

#[test]
fn user_color_flag_suppresses_synthesis() {
    let argv = sv(&["cargo-expand", "expand", "--color=always"]);
    let out = wrap_args(&argv, None, false);
    assert_eq!(
        out,
        sv(&["rustc", "--color=always", "--", "-Zunstable-options", "--pretty=expanded"])
    );
    let on_tty = wrap_args(&argv, None, true);
    assert_eq!(out, on_tty);
}

#[test]
fn user_color_pair_suppresses_synthesis() {
    let argv = sv(&["cargo-expand", "expand", "--color", "never"]);
    let out = wrap_args(&argv, None, true);
    assert_eq!(
        out,
        sv(&["rustc", "--color", "never", "--", "-Zunstable-options", "--pretty=expanded"])
    );
}

#[test]
fn exactly_one_color_flag_synthesized() {
    let argv = sv(&["cargo-expand", "expand", "--lib"]);
    let out = wrap_args(&argv, None, true);
    let color_tokens: Vec<&String> =
        out.iter().filter(|t| t.starts_with("--color")).collect();
    assert_eq!(color_tokens.len(), 1);
    assert_eq!(color_tokens[0], "--color=always");
}

#[test]
fn output_path_redirection_inserted() {
    let argv = sv(&["cargo-expand", "expand"]);
    let path = "/tmp/expanded".to_string();
    let out = wrap_args(&argv, Some(&path), false);
    assert_eq!(
        out,
        sv(&[
            "rustc",
            "--color=never",
            "--",
            "-o",
            "/tmp/expanded",
            "-Zunstable-options",
            "--pretty=expanded",
        ])
    );
}

#[test]
fn color_never_detects_pair_form() {
    assert!(color_never(&sv(&["cargo-expand", "expand", "--color", "never"])));
}

#[test]
fn color_never_detects_joined_form() {
    assert!(color_never(&sv(&["cargo-expand", "expand", "--color=never"])));
}

#[test]
fn color_never_absent() {
    assert!(!color_never(&sv(&["cargo-expand", "expand", "--color=always"])));
    assert!(!color_never(&sv(&["cargo-expand", "expand"])));
    assert!(!color_never(&sv(&["cargo-expand", "expand", "never"])));
}

#[test]
fn short_argument_vector_yields_defaults() {
    let argv = sv(&["cargo-expand"]);
    let out = wrap_args(&argv, None, false);
    assert_eq!(
        out,
        sv(&["rustc", "--color=never", "--", "-Zunstable-options", "--pretty=expanded"])
    );
}

#[test]
fn leading_separator_passes_everything_through() {
    let argv = sv(&["cargo-expand", "expand", "--", "--cfg", "demo"]);
    let out = wrap_args(&argv, None, false);
    assert_eq!(
        out,
        sv(&[
            "rustc",
            "--color=never",
            "--",
            "-Zunstable-options",
            "--pretty=expanded",
            "--cfg",
            "demo",
        ])
    );
}
