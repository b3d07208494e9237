//! The diagnostic filter: the orchestrator re-invokes itself as a small
//! stream transformer that drops known-benign noise lines from a diverted
//! error stream and forwards every other line verbatim.
//!
//! A trailing sentinel argument selects which of two predicates is active:
//! the formatter's own diagnostics are always dropped, while the build tool's
//! stream keeps everything but blank lines and a fixed set of benign
//! advisories about output-filename ambiguity.

use vstd::prelude::*;
use crate::strutil::contains_seq;
use crate::strutil::is_blank_seq;
use crate::strutil::str_contains;
use crate::strutil::str_eq;
use crate::strutil::str_is_blank;
use crate::strutil::views_of;

verus! {

broadcast use crate::strutil::group_views;

/// Which diverted stream a filter instance is draining.
#[derive(Clone, Copy, PartialEq, Eq, Structural, Debug)]
pub enum FilterKind {
    BuildTool,
    Formatter,
}

/// What a process invocation is asked to do, dispatched from the trailing
/// sentinel argument.
#[derive(Clone, Copy, PartialEq, Eq, Structural, Debug)]
pub enum Mode {
    Run,
    FilterBuildNoise,
    FilterFormatterNoise,
}

/// A build-tool diagnostic line that is known-benign noise: blank, or
/// carrying one of the advisories about output-filename ambiguity.
pub open spec fn cargo_noise_line(l: Seq<char>) -> bool {
    ||| is_blank_seq(l)
    ||| contains_seq(l, "ignoring specified output filename because multiple outputs were requested"@)
    ||| contains_seq(
        l,
        "ignoring specified output filename for 'link' output because multiple outputs were requested"@,
    )
    ||| contains_seq(l, "ignoring --out-dir flag due to -o flag."@)
    ||| contains_seq(
        l,
        "due to multiple output types requested, the explicitly specified output file name will be adapted for each output type"@,
    )
}

/// Whether the active predicate classifies a line as ignorable.
pub open spec fn spec_ignore_line(kind: FilterKind, l: Seq<char>) -> bool {
    match kind {
        FilterKind::Formatter => true,
        FilterKind::BuildTool => cargo_noise_line(l),
    }
}

/// The formatter-noise predicate: every line is ignorable.
pub fn ignore_rustfmt_err(line: &str) -> (r: bool)
    ensures
        r == spec_ignore_line(FilterKind::Formatter, line@),
{
    let _ = line;
    true
}

/// The build-tool-noise predicate: a line is ignorable exactly when it is
/// blank or contains one of the four known benign advisory substrings.
pub fn ignore_cargo_err(line: &str) -> (r: bool)
    ensures
        r == spec_ignore_line(FilterKind::BuildTool, line@),
        r == cargo_noise_line(line@),
{
    if str_is_blank(line) {
        return true;
    }
    if str_contains(
        line,
        "ignoring specified output filename because multiple outputs were requested",
    ) {
        return true;
    }
    if str_contains(
        line,
        "ignoring specified output filename for 'link' output because multiple outputs were requested",
    ) {
        return true;
    }
    if str_contains(line, "ignoring --out-dir flag due to -o flag.") {
        return true;
    }
    if str_contains(
        line,
        "due to multiple output types requested, the explicitly specified output file name will be adapted for each output type",
    ) {
        return true;
    }
    false
}

/// Dispatch on the active filter kind.
pub fn ignore_line(kind: FilterKind, line: &str) -> (r: bool)
    ensures
        r == spec_ignore_line(kind, line@),
{
    match kind {
        FilterKind::Formatter => ignore_rustfmt_err(line),
        FilterKind::BuildTool => ignore_cargo_err(line),
    }
}

/// The lines a filter instance forwards: the input stream with every
/// ignorable line dropped, order preserved.
pub open spec fn forwarded_lines(kind: FilterKind, lines: Seq<Seq<char>>) -> Seq<Seq<char>>
    decreases lines.len(),
{
    if lines.len() == 0 {
        Seq::empty()
    } else {
        forwarded_lines(kind, lines.drop_last()) + (if spec_ignore_line(kind, lines.last()) {
            Seq::empty()
        } else {
            seq![lines.last()]
        })
    }
}

/// Apply the active predicate to a whole stream of lines, keeping the lines
/// to be forwarded in their original order.
pub fn filter_lines(kind: FilterKind, lines: &Vec<String>) -> (r: Vec<String>)
    ensures
        r.deep_view() == forwarded_lines(kind, lines.deep_view()),
{
    let ghost lv: Seq<Seq<char>> = lines.deep_view();
    let n: usize = lines.len();
    let mut out: Vec<String> = Vec::new();
    let mut i: usize = 0;
    while i < n
        invariant
            lv == lines.deep_view(),
            lv.len() == n,
            n == lines.len(),
            i <= n,
            views_of(out@) == forwarded_lines(kind, lv.take(i as int)),
        decreases n - i,
    {
        let line = &lines[i];
        proof {
            assert(lv[i as int] == line@);
        }
        if !ignore_line(kind, line.as_str()) {
            out.push(line.clone());
        }
        proof {
            assert(lv.take(i + 1).drop_last() =~= lv.take(i as int));
            assert(lv.take(i + 1).last() == lv[i as int]);
            assert(views_of(out@) =~= forwarded_lines(kind, lv.take(i + 1)));
        }
        i = i + 1;
    }
    proof {
        assert(lv.take(n as int) =~= lv);
    }
    out
}

/// The sentinel token that selects a filter predicate when the orchestrator
/// re-invokes itself as a pipeline stage.
pub open spec fn filter_sentinel(kind: FilterKind) -> Seq<char> {
    match kind {
        FilterKind::BuildTool => "--filter-cargo"@,
        FilterKind::Formatter => "--filter-rustfmt"@,
    }
}

/// The argument list for a filter instance: the original argument vector
/// with the mode-selecting sentinel appended.
pub fn filter_invocation(argv: &Vec<String>, kind: FilterKind) -> (r: Vec<String>)
    ensures
        r.deep_view() == argv.deep_view().push(filter_sentinel(kind)),
{
    let ghost av: Seq<Seq<char>> = argv.deep_view();
    let n: usize = argv.len();
    let mut out: Vec<String> = Vec::new();
    let mut i: usize = 0;
    while i < n
        invariant
            av == argv.deep_view(),
            av.len() == n,
            n == argv.len(),
            i <= n,
            views_of(out@) == av.take(i as int),
        decreases n - i,
    {
        let nxt = argv[i].clone();
        proof {
            assert(av[i as int] == argv@[i as int]@);
        }
        out.push(nxt);
        proof {
            assert(views_of(out@) =~= av.take(i + 1));
        }
        i = i + 1;
    }
    match kind {
        FilterKind::BuildTool => out.push("--filter-cargo".to_owned()),
        FilterKind::Formatter => out.push("--filter-rustfmt".to_owned()),
    }
    proof {
        assert(av.take(n as int) =~= av);
        assert(views_of(out@) =~= av.push(filter_sentinel(kind)));
    }
    out
}

/// The mode a process invocation runs in, decided by its last argument.
pub open spec fn spec_mode_of(argv: Seq<Seq<char>>) -> Mode {
    if argv.len() > 0 && argv.last() == "--filter-cargo"@ {
        Mode::FilterBuildNoise
    } else if argv.len() > 0 && argv.last() == "--filter-rustfmt"@ {
        Mode::FilterFormatterNoise
    } else {
        Mode::Run
    }
}

/// Decide whether this invocation is a filter stage or the orchestrator
/// proper, from the trailing sentinel argument.
pub fn detect_mode(argv: &Vec<String>) -> (m: Mode)
    ensures
        m == spec_mode_of(argv.deep_view()),
{
    let n: usize = argv.len();
    if n == 0 {
        return Mode::Run;
    }
    let last = &argv[n - 1];
    proof {
        assert(argv.deep_view()[n - 1] == last@);
    }
    if str_eq(last.as_str(), "--filter-cargo") {
        Mode::FilterBuildNoise
    } else if str_eq(last.as_str(), "--filter-rustfmt") {
        Mode::FilterFormatterNoise
    } else {
        Mode::Run
    }
}

} // verus!
