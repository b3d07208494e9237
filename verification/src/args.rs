//! The argument synthesizer: rewrites the user's command-line tokens into the
//! argument list for the underlying compiler-invocation subcommand.
//!
//! The invocation starts with the fixed subcommand name, copies the user's
//! tokens up to (not including) a literal `--` separator, injects default
//! target names and a color flag where called for, appends the subcommand's
//! own separator, an optional output redirection, and the two flags requesting
//! pretty-printed expansion, and finally passes the remaining user tokens
//! through verbatim.

use vstd::prelude::*;
use crate::strutil::is_prefix_of;
use crate::strutil::str_eq;
use crate::strutil::str_starts_with;
use crate::strutil::views_of;

verus! {

broadcast use crate::strutil::group_views;

/// The user-supplied tokens: everything after the program name and the
/// leading subcommand token.
pub open spec fn user_tokens(argv: Seq<Seq<char>>) -> Seq<Seq<char>> {
    if argv.len() <= 2 {
        Seq::empty()
    } else {
        argv.subrange(2, argv.len() as int)
    }
}

/// Index of the first `--` separator among the user tokens, or `u.len()`
/// when none is present.
pub open spec fn sep_index(u: Seq<Seq<char>>) -> int
    decreases u.len(),
{
    if u.len() == 0 {
        0
    } else if u[0] == "--"@ {
        0
    } else {
        1 + sep_index(u.subrange(1, u.len() as int))
    }
}

pub proof fn lemma_sep_index_bounds(u: Seq<Seq<char>>)
    ensures
        0 <= sep_index(u) <= u.len(),
        forall|j: int| 0 <= j < sep_index(u) ==> u[j] != "--"@,
        sep_index(u) < u.len() ==> u[sep_index(u)] == "--"@,
    decreases u.len(),
{
    if u.len() == 0 {
    } else if u[0] == "--"@ {
    } else {
        let t = u.subrange(1, u.len() as int);
        lemma_sep_index_bounds(t);
        assert forall|j: int| 0 <= j < sep_index(u) implies u[j] != "--"@ by {
            if j > 0 {
                assert(t[j - 1] == u[j]);
            }
        }
        if sep_index(u) < u.len() {
            assert(t[sep_index(u) - 1] == u[sep_index(u)]);
        }
    }
}

/// The separator index is the unique position `m` with no separator before it
/// and either a separator at it or the end of the tokens.
pub proof fn lemma_sep_index_is(u: Seq<Seq<char>>, m: int)
    requires
        0 <= m <= u.len(),
        forall|j: int| 0 <= j < m ==> u[j] != "--"@,
        m < u.len() ==> u[m] == "--"@,
    ensures
        sep_index(u) == m,
    decreases u.len(),
{
    if u.len() == 0 {
    } else if u[0] == "--"@ {
        assert(m == 0);
    } else {
        assert(m >= 1);
        let t = u.subrange(1, u.len() as int);
        assert forall|j: int| 0 <= j < m - 1 implies t[j] != "--"@ by {
            assert(t[j] == u[j + 1]);
        }
        if m - 1 < t.len() {
            assert(t[m - 1] == u[m]);
        }
        lemma_sep_index_is(t, m - 1);
    }
}

/// The copied region: user tokens before the separator.
pub open spec fn head_tokens(u: Seq<Seq<char>>) -> Seq<Seq<char>> {
    u.take(sep_index(u))
}

/// The pass-through region: user tokens after the separator.
pub open spec fn tail_tokens(u: Seq<Seq<char>>) -> Seq<Seq<char>> {
    if sep_index(u) < u.len() {
        u.subrange(sep_index(u) + 1, u.len() as int)
    } else {
        Seq::empty()
    }
}

/// The last copied token selected the test target.
pub open spec fn ends_with_test(u: Seq<Seq<char>>) -> bool {
    sep_index(u) > 0 && u[sep_index(u) - 1] == "--test"@
}

/// The last copied token selected the example target.
pub open spec fn ends_with_example(u: Seq<Seq<char>>) -> bool {
    sep_index(u) > 0 && u[sep_index(u) - 1] == "--example"@
}

/// Some copied token carries an explicit color choice.
pub open spec fn has_color_token(u: Seq<Seq<char>>) -> bool {
    exists|j: int| 0 <= j < sep_index(u) && is_prefix_of("--color"@, #[trigger] u[j])
}

/// Default target names injected after a trailing target-selection flag.
pub open spec fn target_part(u: Seq<Seq<char>>) -> Seq<Seq<char>> {
    (if ends_with_test(u) {
        seq!["test"@]
    } else {
        Seq::empty()
    }) + (if ends_with_example(u) {
        seq!["example"@]
    } else {
        Seq::empty()
    })
}

/// The color flag synthesized from the error stream's terminal attachment.
pub open spec fn color_flag(stderr_tty: bool) -> Seq<char> {
    if stderr_tty {
        "--color=always"@
    } else {
        "--color=never"@
    }
}

/// The synthesized color flag, absent when the user chose a color.
pub open spec fn color_part(u: Seq<Seq<char>>, stderr_tty: bool) -> Seq<Seq<char>> {
    if has_color_token(u) {
        Seq::empty()
    } else {
        seq![color_flag(stderr_tty)]
    }
}

/// Output redirection for the expanded text, when a path was supplied.
pub open spec fn output_part(outfile: Option<Seq<char>>) -> Seq<Seq<char>> {
    match outfile {
        Option::Some(p) => seq!["-o"@, p],
        Option::None => Seq::empty(),
    }
}

/// The two fixed flags requesting the pretty-printed-expansion output mode.
pub open spec fn fixed_flags() -> Seq<Seq<char>> {
    seq!["-Zunstable-options"@, "--pretty=expanded"@]
}

/// The full synthesized invocation, from the user tokens alone.
pub open spec fn synthesized_from_user(
    u: Seq<Seq<char>>,
    outfile: Option<Seq<char>>,
    stderr_tty: bool,
) -> Seq<Seq<char>> {
    seq!["rustc"@] + head_tokens(u) + target_part(u) + color_part(u, stderr_tty) + seq!["--"@]
        + output_part(outfile) + fixed_flags() + tail_tokens(u)
}

/// The full synthesized invocation, from the raw argument vector.
pub open spec fn synthesized_args(
    argv: Seq<Seq<char>>,
    outfile: Option<Seq<char>>,
    stderr_tty: bool,
) -> Seq<Seq<char>> {
    synthesized_from_user(user_tokens(argv), outfile, stderr_tty)
}

pub open spec fn opt_str_view(o: Option<&String>) -> Option<Seq<char>> {
    match o {
        Option::Some(p) => Option::Some(p@),
        Option::None => Option::None,
    }
}

/// An explicit `--color never` pair or `--color=never` token is present.
pub open spec fn color_never_requested(argv: Seq<Seq<char>>) -> bool {
    (exists|i: int|
        0 <= i && i + 1 < argv.len() && #[trigger] argv[i] == "--color"@ && argv[i + 1]
            == "never"@) || (exists|i: int|
        0 <= i < argv.len() && #[trigger] argv[i] == "--color=never"@)
}

/// Scan for an explicit request to disable color output.
pub fn color_never(argv: &Vec<String>) -> (r: bool)
    ensures
        r == color_never_requested(argv.deep_view()),
{
    let ghost a = argv.deep_view();
    let n: usize = argv.len();
    let mut i: usize = 0;
    while i < n
        invariant
            a == argv.deep_view(),
            a.len() == n,
            n == argv.len(),
            i <= n,
            forall|j: int| 0 <= j < i ==> #[trigger] a[j] != "--color=never"@,
            forall|j: int|
                0 <= j < i && j + 1 < n ==> !(#[trigger] a[j] == "--color"@ && a[j + 1]
                    == "never"@),
        decreases n - i,
    {
        let arg = &argv[i];
        proof {
            assert(a[i as int] == arg@);
        }
        if str_eq(arg.as_str(), "--color=never") {
            return true;
        }
        if i + 1 < n && str_eq(arg.as_str(), "--color") && str_eq(argv[i + 1].as_str(), "never") {
            proof {
                assert(a[i + 1] == argv@[i + 1]@);
            }
            return true;
        }
        i = i + 1;
    }
    false
}

/// Synthesize the compiler-invocation argument list from the raw argument
/// vector, an optional output path, and whether the error stream is attached
/// to an interactive terminal.
#[verifier::rlimit(100)]
pub fn wrap_args(argv: &Vec<String>, outfile: Option<&String>, stderr_tty: bool) -> (r: Vec<String>)
    ensures
        r.deep_view() == synthesized_args(argv.deep_view(), opt_str_view(outfile), stderr_tty),
{
    let ghost av: Seq<Seq<char>> = argv.deep_view();
    let ghost u: Seq<Seq<char>> = user_tokens(av);
    let n: usize = argv.len();
    let mut out: Vec<String> = Vec::new();
    out.push("rustc".to_owned());
    proof {
        assert(views_of(out@) =~= seq!["rustc"@] + u.take(0));
    }
    let mut m: usize = 0;
    let mut ends_test: bool = false;
    let mut ends_example: bool = false;
    let mut has_color: bool = false;
    let mut found_sep: bool = false;
    while 2 + m < n && !found_sep
        invariant
            av == argv.deep_view(),
            av.len() == n,
            u == user_tokens(av),
            n == argv.len(),
            u.len() == if n <= 2 { 0int } else { n - 2 },
            m <= u.len(),
            forall|j: int| 0 <= j < m ==> u[j] != "--"@,
            found_sep ==> m < u.len() && u[m as int] == "--"@,
            ends_test == (m > 0 && u[m - 1] == "--test"@),
            ends_example == (m > 0 && u[m - 1] == "--example"@),
            has_color == exists|j: int| 0 <= j < m && is_prefix_of("--color"@, #[trigger] u[j]),
            views_of(out@) == seq!["rustc"@] + u.take(m as int),
        decreases n - m + if found_sep { 0int } else { 1int },
    {
        let arg = &argv[2 + m];
        proof {
            assert(av[2 + m as int] == arg@);
            assert(u[m as int] == av[2 + m as int]);
        }
        if str_eq(arg.as_str(), "--") {
            found_sep = true;
        } else {
            ends_test = str_eq(arg.as_str(), "--test");
            ends_example = str_eq(arg.as_str(), "--example");
            if str_starts_with(arg.as_str(), "--color") {
                has_color = true;
            }
            out.push(arg.clone());
            proof {
                u.lemma_take_succ_push(m as int);
                assert(seq!["rustc"@] + u.take(m + 1) =~= (seq!["rustc"@] + u.take(m as int)).push(
                    u[m as int],
                ));
            }
            m = m + 1;
        }
    }
    proof {
        lemma_sep_index_is(u, m as int);
    }
    if ends_test {
        out.push("test".to_owned());
    }
    if ends_example {
        out.push("example".to_owned());
    }
    proof {
        assert(views_of(out@) =~= seq!["rustc"@] + head_tokens(u) + target_part(u));
    }
    if !has_color {
        if stderr_tty {
            out.push("--color=always".to_owned());
        } else {
            out.push("--color=never".to_owned());
        }
    }
    proof {
        assert(views_of(out@) =~= seq!["rustc"@] + head_tokens(u) + target_part(u)
            + color_part(u, stderr_tty));
    }
    out.push("--".to_owned());
    match outfile {
        Option::Some(path) => {
            out.push("-o".to_owned());
            out.push((*path).clone());
        },
        Option::None => {},
    }
    out.push("-Zunstable-options".to_owned());
    out.push("--pretty=expanded".to_owned());
    let ghost pre_tail: Seq<Seq<char>> = seq!["rustc"@] + head_tokens(u) + target_part(u)
        + color_part(u, stderr_tty) + seq!["--"@] + output_part(opt_str_view(outfile))
        + fixed_flags();
    proof {
        assert(views_of(out@) =~= pre_tail);
    }
    let mut t: usize = if found_sep {
        2 + m + 1
    } else {
        n
    };
    while t < n
        invariant
            av == argv.deep_view(),
            av.len() == n,
            u == user_tokens(av),
            n == argv.len(),
            u.len() == if n <= 2 { 0int } else { n - 2 },
            sep_index(u) == m as int,
            found_sep ==> m < u.len() && 2 + m + 1 <= t <= n,
            !found_sep ==> t == n,
            found_sep ==> views_of(out@) == pre_tail + u.subrange(m + 1, t - 2),
            !found_sep ==> views_of(out@) == pre_tail,
        decreases n - t,
    {
        let nxt = argv[t].clone();
        proof {
            assert(av[t as int] == argv@[t as int]@);
            assert(u[t - 2] == av[t as int]);
        }
        out.push(nxt);
        proof {
            assert(u.subrange(m + 1, t - 2 + 1) =~= u.subrange(m + 1, t - 2).push(u[t - 2]));
            assert(views_of(out@) =~= pre_tail + u.subrange(m + 1, t - 2 + 1));
        }
        t = t + 1;
    }
    proof {
        if found_sep {
            assert(u.subrange(m + 1, n - 2) == tail_tokens(u));
        } else {
            assert(tail_tokens(u) =~= Seq::empty());
        }
        assert(views_of(out@) =~= synthesized_args(av, opt_str_view(outfile), stderr_tty));
    }
    out
}

} // verus!
// Laws of the synthesizer, stated over the user tokens (the argument vector
// after the program name and the leading subcommand token).

verus! {

/// With no `--` separator among the user tokens, the pass-through suffix is
/// empty and every user token appears, in its original order, in the copied
/// region immediately after the subcommand name.
pub proof fn lemma_no_separator_passthrough(
    u: Seq<Seq<char>>,
    outfile: Option<Seq<char>>,
    stderr_tty: bool,
)
    requires
        forall|i: int| 0 <= i < u.len() ==> u[i] != "--"@,
    ensures
        tail_tokens(u) == Seq::<Seq<char>>::empty(),
        head_tokens(u) == u,
        synthesized_from_user(u, outfile, stderr_tty) == seq!["rustc"@] + u + target_part(u)
            + color_part(u, stderr_tty) + seq!["--"@] + output_part(outfile) + fixed_flags(),
        synthesized_from_user(u, outfile, stderr_tty).subrange(1, 1 + u.len() as int) == u,
{
    lemma_sep_index_is(u, u.len() as int);
    assert(head_tokens(u) =~= u);
    assert(synthesized_from_user(u, outfile, stderr_tty).subrange(1, 1 + u.len() as int) =~= u);
}

/// An input ending in the test-target flag, with no separator, gets exactly
/// one token injected: the default test target name, immediately after the
/// user tokens and before the synthesized separator.
pub proof fn lemma_test_target_injected(
    u: Seq<Seq<char>>,
    outfile: Option<Seq<char>>,
    stderr_tty: bool,
)
    requires
        u.len() > 0,
        u.last() == "--test"@,
        forall|i: int| 0 <= i < u.len() ==> u[i] != "--"@,
    ensures
        target_part(u) == seq!["test"@],
        synthesized_from_user(u, outfile, stderr_tty) == seq!["rustc"@] + u + seq!["test"@]
            + color_part(u, stderr_tty) + seq!["--"@] + output_part(outfile) + fixed_flags(),
        synthesized_from_user(u, outfile, stderr_tty)[1 + u.len() as int] == "test"@,
{
    lemma_sep_index_is(u, u.len() as int);
    assert(ends_with_test(u));
    assert(!ends_with_example(u)) by {
        reveal_strlit("--test");
        reveal_strlit("--example");
        assert("--test"@.len() == 6);
        assert("--example"@.len() == 9);
    }
    assert(target_part(u) =~= seq!["test"@]);
    assert(head_tokens(u) =~= u);
    assert(synthesized_from_user(u, outfile, stderr_tty)[1 + u.len() as int] == "test"@);
}

/// An input ending in the example-target flag, with no separator, gets
/// exactly one token injected: the default example target name, immediately
/// after the user tokens and before the synthesized separator.
pub proof fn lemma_example_target_injected(
    u: Seq<Seq<char>>,
    outfile: Option<Seq<char>>,
    stderr_tty: bool,
)
    requires
        u.len() > 0,
        u.last() == "--example"@,
        forall|i: int| 0 <= i < u.len() ==> u[i] != "--"@,
    ensures
        target_part(u) == seq!["example"@],
        synthesized_from_user(u, outfile, stderr_tty) == seq!["rustc"@] + u + seq!["example"@]
            + color_part(u, stderr_tty) + seq!["--"@] + output_part(outfile) + fixed_flags(),
        synthesized_from_user(u, outfile, stderr_tty)[1 + u.len() as int] == "example"@,
{
    lemma_sep_index_is(u, u.len() as int);
    assert(ends_with_example(u));
    assert(!ends_with_test(u)) by {
        reveal_strlit("--test");
        reveal_strlit("--example");
        assert("--test"@.len() == 6);
        assert("--example"@.len() == 9);
    }
    assert(target_part(u) =~= seq!["example"@]);
    assert(head_tokens(u) =~= u);
    assert(synthesized_from_user(u, outfile, stderr_tty)[1 + u.len() as int] == "example"@);
}

/// A copied token beginning with the color prefix suppresses color
/// synthesis entirely: the user's explicit choice wins, and the synthesized
/// list is the same whatever the terminal attachment.
pub proof fn lemma_user_color_wins(
    u: Seq<Seq<char>>,
    outfile: Option<Seq<char>>,
    stderr_tty: bool,
)
    requires
        exists|i: int| 0 <= i < sep_index(u) && is_prefix_of("--color"@, #[trigger] u[i]),
    ensures
        color_part(u, stderr_tty) == Seq::<Seq<char>>::empty(),
        synthesized_from_user(u, outfile, stderr_tty) == seq!["rustc"@] + head_tokens(u)
            + target_part(u) + seq!["--"@] + output_part(outfile) + fixed_flags()
            + tail_tokens(u),
        synthesized_from_user(u, outfile, true) == synthesized_from_user(u, outfile, false),
{
    assert(has_color_token(u));
    assert(synthesized_from_user(u, outfile, stderr_tty) =~= seq!["rustc"@] + head_tokens(u)
        + target_part(u) + seq!["--"@] + output_part(outfile) + fixed_flags() + tail_tokens(u));
    assert(synthesized_from_user(u, outfile, true) =~= synthesized_from_user(u, outfile, false));
}

} // verus!

verus! {

/// None of the fixed tokens of the synthesized invocation begins with the
/// color prefix.
proof fn lemma_fixed_tokens_not_color()
    ensures
        !is_prefix_of("--color"@, "rustc"@),
        !is_prefix_of("--color"@, "test"@),
        !is_prefix_of("--color"@, "example"@),
        !is_prefix_of("--color"@, "--"@),
        !is_prefix_of("--color"@, "-o"@),
        !is_prefix_of("--color"@, "-Zunstable-options"@),
        !is_prefix_of("--color"@, "--pretty=expanded"@),
        is_prefix_of("--color"@, "--color=always"@),
        is_prefix_of("--color"@, "--color=never"@),
{
    reveal_strlit("--color");
    reveal_strlit("rustc");
    reveal_strlit("test");
    reveal_strlit("example");
    reveal_strlit("--");
    reveal_strlit("-o");
    reveal_strlit("-Zunstable-options");
    reveal_strlit("--pretty=expanded");
    reveal_strlit("--color=always");
    reveal_strlit("--color=never");
    assert(!is_prefix_of("--color"@, "example"@)) by {
        assert("example"@.subrange(0, 7)[0] == 'e');
    }
    assert(!is_prefix_of("--color"@, "-Zunstable-options"@)) by {
        assert("-Zunstable-options"@.subrange(0, 7)[1] == 'Z');
    }
    assert(!is_prefix_of("--color"@, "--pretty=expanded"@)) by {
        assert("--pretty=expanded"@.subrange(0, 7)[2] == 'p');
    }
    assert(is_prefix_of("--color"@, "--color=always"@)) by {
        assert("--color=always"@.subrange(0, 7) =~= "--color"@);
    }
    assert(is_prefix_of("--color"@, "--color=never"@)) by {
        assert("--color=never"@.subrange(0, 7) =~= "--color"@);
    }
}

/// With no color token among the user tokens (and none as the output path),
/// exactly one color-prefixed token stands in the synthesized invocation,
/// and its value — always or never — is decided solely by the error
/// stream's terminal attachment.
pub proof fn lemma_color_synthesized(
    u: Seq<Seq<char>>,
    outfile: Option<Seq<char>>,
    stderr_tty: bool,
)
    requires
        forall|i: int| 0 <= i < u.len() ==> !is_prefix_of("--color"@, #[trigger] u[i]),
        outfile matches Option::Some(p) ==> !is_prefix_of("--color"@, p),
    ensures
        color_part(u, stderr_tty) == seq![color_flag(stderr_tty)],
        ({
            let w = synthesized_from_user(u, outfile, stderr_tty);
            let k = 1 + head_tokens(u).len() + target_part(u).len();
            &&& 0 <= k < w.len()
            &&& w[k as int] == color_flag(stderr_tty)
            &&& is_prefix_of("--color"@, w[k as int])
            &&& forall|j: int|
                0 <= j < w.len() && j != k ==> !is_prefix_of("--color"@, #[trigger] w[j])
        }),
{
    lemma_sep_index_bounds(u);
    lemma_fixed_tokens_not_color();
    assert(!has_color_token(u));
    let w = synthesized_from_user(u, outfile, stderr_tty);
    let h = head_tokens(u).len() as int;
    let tp = target_part(u).len() as int;
    let op = output_part(outfile).len() as int;
    let k = 1 + h + tp;
    assert(w[k] == color_flag(stderr_tty));
    assert forall|j: int| 0 <= j < w.len() && j != k implies !is_prefix_of(
        "--color"@,
        #[trigger] w[j],
    ) by {
        if j == 0 {
            assert(w[j] == "rustc"@);
        } else if j < 1 + h {
            assert(w[j] == head_tokens(u)[j - 1]);
            assert(head_tokens(u)[j - 1] == u[j - 1]);
        } else if j < 1 + h + tp {
            assert(w[j] == "test"@ || w[j] == "example"@);
        } else if j == k + 1 {
            assert(w[j] == "--"@);
        } else if j < k + 2 + op {
            if j == k + 2 {
                assert(w[j] == output_part(outfile)[0]);
            } else {
                assert(w[j] == output_part(outfile)[1]);
                assert(output_part(outfile)[1] == outfile.unwrap());
            }
        } else if j == k + 2 + op {
            assert(w[j] == "-Zunstable-options"@);
        } else if j == k + 3 + op {
            assert(w[j] == "--pretty=expanded"@);
        } else {
            assert(w[j] == tail_tokens(u)[j - (k + 4 + op)]);
            assert(tail_tokens(u)[j - (k + 4 + op)] == u[sep_index(u) + 1 + j - (k + 4 + op)]);
        }
    }
}

} // verus!

verus! {

/// With no color token among the copied tokens, the synthesized color flag
/// stands immediately after any injected target token and immediately
/// before the synthesized separator, and it is the only color-prefixed
/// token anywhere before that separator — whatever the pass-through suffix
/// and the output path hold.
pub proof fn lemma_color_flag_position(
    u: Seq<Seq<char>>,
    outfile: Option<Seq<char>>,
    stderr_tty: bool,
)
    requires
        !has_color_token(u),
    ensures
        ({
            let w = synthesized_from_user(u, outfile, stderr_tty);
            let k = 1 + head_tokens(u).len() + target_part(u).len();
            &&& w[k as int] == color_flag(stderr_tty)
            &&& is_prefix_of("--color"@, w[k as int])
            &&& w[k as int + 1] == "--"@
            &&& forall|j: int| 0 <= j < k ==> !is_prefix_of("--color"@, #[trigger] w[j])
        }),
{
    lemma_sep_index_bounds(u);
    lemma_fixed_tokens_not_color();
    let w = synthesized_from_user(u, outfile, stderr_tty);
    let h = head_tokens(u).len() as int;
    let tp = target_part(u).len() as int;
    let k = 1 + h + tp;
    assert(w[k] == color_flag(stderr_tty));
    assert(w[k + 1] == "--"@);
    assert forall|j: int| 0 <= j < k implies !is_prefix_of("--color"@, #[trigger] w[j]) by {
        if j == 0 {
            assert(w[j] == "rustc"@);
        } else if j < 1 + h {
            assert(w[j] == head_tokens(u)[j - 1]);
            assert(head_tokens(u)[j - 1] == u[j - 1]);
        } else {
            assert(w[j] == "test"@ || w[j] == "example"@);
        }
    }
}

} // verus!
