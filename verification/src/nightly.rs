//! The toolchain prober's decisions: whether the active build tool is
//! definitely not nightly-capable, whether to re-exec under the nightly
//! variant, the argument list for that re-exec, and exit-code propagation.

use vstd::prelude::*;
use crate::strutil::contains_seq;
use crate::strutil::is_prefix_of;
use crate::strutil::str_contains;
use crate::strutil::str_starts_with;
use crate::strutil::views_of;

verus! {

broadcast use crate::strutil::group_views;

/// A version string names a legacy stable release: it starts with the
/// stable-release pattern and lacks the nightly marker.
pub open spec fn stable_version_string(v: Seq<char>) -> bool {
    is_prefix_of("cargo 1"@, v) && !contains_seq(v, "nightly"@)
}

/// Decide from the version probe's output whether the active build tool is
/// definitely not nightly-capable. `None` stands for a failed probe (the
/// query could not be run or its output was not decodable text), which
/// conservatively counts as "might be capable".
pub fn definitely_not_nightly(version: Option<&String>) -> (r: bool)
    ensures
        r == match version {
            Option::Some(v) => stable_version_string(v@),
            Option::None => false,
        },
{
    match version {
        Option::Some(v) => {
            str_starts_with(v.as_str(), "cargo 1") && !str_contains(v.as_str(), "nightly")
        },
        Option::None => false,
    }
}

/// Decide whether to re-exec under the nightly-capable variant. Re-exec
/// happens only when the prober affirmed "definitely not nightly" and the
/// loop-prevention guard is not set; a set guard always suppresses re-exec.
pub fn should_reexec(not_nightly: bool, guard_set: bool) -> (r: bool)
    ensures
        r == (not_nightly && !guard_set),
        guard_set ==> !r,
{
    not_nightly && !guard_set
}

/// The argument list handed to the build tool for the re-exec: the nightly
/// variant selector, the subcommand, then every original argument after the
/// program name, verbatim.
pub fn reexec_invocation(argv: &Vec<String>) -> (r: Vec<String>)
    ensures
        r.deep_view() == seq!["+nightly"@, "expand"@] + (if argv.deep_view().len() <= 1 {
            Seq::<Seq<char>>::empty()
        } else {
            argv.deep_view().subrange(1, argv.deep_view().len() as int)
        }),
{
    let ghost av: Seq<Seq<char>> = argv.deep_view();
    let n: usize = argv.len();
    let mut out: Vec<String> = Vec::new();
    out.push("+nightly".to_owned());
    out.push("expand".to_owned());
    proof {
        assert(views_of(out@) =~= seq!["+nightly"@, "expand"@]);
    }
    let mut i: usize = 1;
    while i < n
        invariant
            av == argv.deep_view(),
            av.len() == n,
            n == argv.len(),
            1 <= i <= n || (n == 0 && i == 1),
            views_of(out@) == seq!["+nightly"@, "expand"@] + (if i <= 1 {
                Seq::<Seq<char>>::empty()
            } else {
                av.subrange(1, i as int)
            }),
        decreases n - i,
    {
        let nxt = argv[i].clone();
        proof {
            assert(av[i as int] == argv@[i as int]@);
        }
        out.push(nxt);
        proof {
            assert(views_of(out@) =~= seq!["+nightly"@, "expand"@] + av.subrange(1, i + 1));
        }
        i = i + 1;
    }
    out
}

/// Map a finished process's status to the orchestrator's exit code when the
/// re-exec'd child finished: its numeric code if one is reported, else 0 for
/// success and 1 for abnormal termination.
pub fn propagated_exit_code(code: Option<i32>, success: bool) -> (r: i32)
    ensures
        code matches Option::Some(c) ==> r == c,
        code is None ==> r == (if success {
            0int
        } else {
            1int
        }),
{
    match code {
        Option::Some(c) => c,
        Option::None => {
            if success {
                0
            } else {
                1
            }
        },
    }
}

/// Map the final pipeline stage's status to the orchestrator's exit code:
/// its numeric code if one is reported, else 1.
pub fn run_exit_code(code: Option<i32>) -> (r: i32)
    ensures
        code matches Option::Some(c) ==> r == c,
        code is None ==> r == 1,
{
    match code {
        Option::Some(c) => c,
        Option::None => 1,
    }
}

} // verus!
