use cargo_expand::filter::FilterKind;
use cargo_expand::pipeline::build_plan;

fn sv(args: &[&str]) -> Vec<String> {
    args.iter().map(|s| s.to_string()).collect()
}

#[test]
fn single_stage_chain_without_tools() {
    let argv = sv(&["cargo-expand", "expand"]);
    let cargo = "cargo".to_string();
    let plan = build_plan(&argv, &cargo, None, None, None, false);
    assert!(!plan.uses_tempfile);
    assert!(plan.prelude.is_empty());
    assert_eq!(plan.chain.len(), 1);
    assert_eq!(plan.chain[0].program, "cargo");
    assert_eq!(
        plan.chain[0].args,
        sv(&["rustc", "--color=never", "--", "-Zunstable-options", "--pretty=expanded"])
    );
    assert_eq!(plan.chain[0].err_filter, None);
}

#[test]
fn full_chain_with_formatter_and_highlighter() {
    let argv = sv(&["cargo-expand", "expand"]);
    let cargo = "cargo".to_string();
    let fmt = "rustfmt".to_string();
    let pyg = "pygmentize".to_string();
    let out = "/tmp/scratch/expanded".to_string();
    let plan = build_plan(&argv, &cargo, Some(&fmt), Some(&pyg), Some(&out), false);
    assert!(plan.uses_tempfile);

    assert_eq!(plan.prelude.len(), 2);
    assert_eq!(plan.prelude[0].program, "cargo");
    assert_eq!(
        plan.prelude[0].args,
        sv(&[
            "rustc",
            "--color=never",
            "--",
            "-o",
            "/tmp/scratch/expanded",
            "-Zunstable-options",
            "--pretty=expanded",
        ])
    );
    assert_eq!(plan.prelude[0].err_filter, Some(FilterKind::BuildTool));
    assert_eq!(plan.prelude[1].program, "cat");
    assert!(plan.prelude[1].args.is_empty());
    assert_eq!(plan.prelude[1].err_filter, None);

    assert_eq!(plan.chain.len(), 4);
    assert_eq!(plan.chain[0].program, "cat");
    assert_eq!(plan.chain[0].args, sv(&["/tmp/scratch/expanded"]));
    assert_eq!(plan.chain[0].err_filter, None);
    assert_eq!(plan.chain[1].program, "rustfmt");
    assert!(plan.chain[1].args.is_empty());
    assert_eq!(plan.chain[1].err_filter, Some(FilterKind::Formatter));
    assert_eq!(plan.chain[2].program, "cat");
    assert!(plan.chain[2].args.is_empty());
    assert_eq!(plan.chain[2].err_filter, None);
    assert_eq!(plan.chain[3].program, "pygmentize");
    assert_eq!(plan.chain[3].args, sv(&["-l", "rust", "-O", "encoding=utf8"]));
    assert_eq!(plan.chain[3].err_filter, None);
}

#[test]
fn formatter_only_chain() {
    let argv = sv(&["cargo-expand", "expand"]);
    let cargo = "cargo".to_string();
    let fmt = "rustfmt".to_string();
    let out = "/tmp/scratch/expanded".to_string();
    let plan = build_plan(&argv, &cargo, Some(&fmt), None, Some(&out), true);
    assert!(plan.uses_tempfile);
    assert_eq!(plan.prelude.len(), 2);
    assert_eq!(
        plan.prelude[0].args,
        sv(&[
            "rustc",
            "--color=always",
            "--",
            "-o",
            "/tmp/scratch/expanded",
            "-Zunstable-options",
            "--pretty=expanded",
        ])
    );
    assert_eq!(plan.chain.len(), 3);
    assert_eq!(plan.chain[0].program, "cat");
    assert_eq!(plan.chain[1].program, "rustfmt");
    assert_eq!(plan.chain[1].err_filter, Some(FilterKind::Formatter));
    assert_eq!(plan.chain[2].program, "cat");
}

#[test]
fn highlighter_only_chain() {
    let argv = sv(&["cargo-expand", "expand"]);
    let cargo = "cargo".to_string();
    let pyg = "pygmentize".to_string();
    let out = "/tmp/scratch/expanded".to_string();
    let plan = build_plan(&argv, &cargo, None, Some(&pyg), Some(&out), false);
    assert!(plan.uses_tempfile);
    assert_eq!(plan.prelude.len(), 2);
    assert_eq!(plan.chain.len(), 2);
    assert_eq!(plan.chain[0].program, "cat");
    assert_eq!(plan.chain[0].args, sv(&["/tmp/scratch/expanded"]));
    assert_eq!(plan.chain[1].program, "pygmentize");
    assert_eq!(plan.chain[1].args, sv(&["-l", "rust", "-O", "encoding=utf8"]));
}
