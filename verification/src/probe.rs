//! The capability prober's decisions: how a best-effort, non-fatal check for
//! an optional post-processing tool is resolved from the help flag, an
//! explicit environment override, and the probe process's outcome.

use vstd::prelude::*;
use vstd::string::StrSliceExecFns;
use crate::args::color_never_requested;
use crate::args::color_never;
use crate::strutil::str_eq;

verus! {

broadcast use crate::strutil::group_views;

/// How a tool lookup proceeds after the short-circuit checks.
pub enum ProbeDecision {
    /// The tool is treated as absent; no probe process is spawned.
    Absent,
    /// An override names the tool's path; it is used verbatim, unprobed.
    Resolved(String),
    /// No override: spawn the probe process and judge by its exit status.
    RunProbe,
}

/// Decide a tool lookup from the help flag and the tool's override variable.
/// A help request forces "absent" (probing would cause side effects during
/// help output); an empty override forces "absent"; a non-empty override is
/// the resolved path; otherwise the probe must run.
pub fn probe_decision(help_requested: bool, override_value: Option<&String>) -> (d: ProbeDecision)
    ensures
        help_requested ==> d is Absent,
        !help_requested ==> match override_value {
            Option::Some(v) => if v@.len() == 0 {
                d is Absent
            } else {
                d matches ProbeDecision::Resolved(p) && p@ == v@
            },
            Option::None => d is RunProbe,
        },
{
    if help_requested {
        return ProbeDecision::Absent;
    }
    match override_value {
        Option::Some(v) => {
            if v.as_str().unicode_len() == 0 {
                ProbeDecision::Absent
            } else {
                ProbeDecision::Resolved((*v).clone())
            }
        },
        Option::None => ProbeDecision::RunProbe,
    }
}

/// Interpret a probe process's outcome. `None` stands for a spawn or wait
/// failure; only a successful exit resolves the tool, to its own name.
pub fn probe_outcome(tool: &String, exit_success: Option<bool>) -> (r: Option<String>)
    ensures
        exit_success == Option::Some(true) ==> (r matches Option::Some(t) && t@ == tool@),
        exit_success != Option::Some(true) ==> r is None,
{
    match exit_success {
        Option::Some(true) => Option::Some((*tool).clone()),
        _ => Option::None,
    }
}

/// Whether the argument vector contains the help flag, which suppresses all
/// optional-tool probing.
pub fn help_requested(argv: &Vec<String>) -> (r: bool)
    ensures
        r == exists|i: int| 0 <= i < argv.deep_view().len() && argv.deep_view()[i] == "--help"@,
{
    let ghost av = argv.deep_view();
    let n: usize = argv.len();
    let mut i: usize = 0;
    while i < n
        invariant
            av == argv.deep_view(),
            av.len() == n,
            n == argv.len(),
            i <= n,
            forall|j: int| 0 <= j < i ==> av[j] != "--help"@,
        decreases n - i,
    {
        let arg = &argv[i];
        proof {
            assert(av[i as int] == arg@);
        }
        if str_eq(arg.as_str(), "--help") {
            return true;
        }
        i = i + 1;
    }
    false
}

/// The highlighter probe runs only when standard output is an interactive
/// terminal and color was not explicitly disabled: anywhere else, color
/// codes would corrupt the output.
pub fn should_probe_highlighter(argv: &Vec<String>, stdout_tty: bool) -> (r: bool)
    ensures
        r == (!color_never_requested(argv.deep_view()) && stdout_tty),
{
    !color_never(argv) && stdout_tty
}

} // verus!
