//! The pipeline builder's plan: the chain of external processes to run, laid
//! out as data. Each stage's standard output feeds the next stage's standard
//! input; a stage may ask for its error stream to be diverted through a
//! diagnostic filter instance.
//!
//! When a post-processing tool is present, a buffering prelude first runs the
//! compiler invocation with its textual output redirected to a temporary
//! file (separating it from build-script console output), and the main chain
//! then reads that file back.

use vstd::prelude::*;
use crate::args::opt_str_view;
use crate::args::synthesized_args;
use crate::args::wrap_args;
use crate::filter::FilterKind;
use crate::strutil::views_of;

verus! {

broadcast use crate::strutil::group_views;

/// One external process in the output-processing chain.
pub struct Stage {
    /// The program to spawn.
    pub program: String,
    /// Its argument list.
    pub args: Vec<String>,
    /// When set, the stage's error stream is diverted through a diagnostic
    /// filter instance of this kind.
    pub err_filter: Option<FilterKind>,
}

/// The mathematical image of a stage.
#[verifier::ext_equal]
pub ghost struct StageView {
    pub program: Seq<char>,
    pub args: Seq<Seq<char>>,
    pub err_filter: Option<FilterKind>,
}

impl View for Stage {
    type V = StageView;

    open spec fn view(&self) -> StageView {
        StageView {
            program: self.program@,
            args: views_of(self.args@),
            err_filter: self.err_filter,
        }
    }
}

impl DeepView for Stage {
    type V = StageView;

    open spec fn deep_view(&self) -> StageView {
        self@
    }
}

/// The plan the orchestrator executes: an optional buffering prelude run to
/// completion first, then the main chain, whose final stage's exit status
/// becomes the program's exit code.
pub struct Plan {
    /// Whether a temporary output file is in use, separating the compiler's
    /// own text from build-script console output.
    pub uses_tempfile: bool,
    /// The buffering chain, run to completion before the main chain; empty
    /// when no temporary file is used.
    pub prelude: Vec<Stage>,
    /// The main chain.
    pub chain: Vec<Stage>,
}

/// A buffering stage: the stream copier with the given arguments.
pub open spec fn cat_view(args: Seq<Seq<char>>) -> StageView {
    StageView { program: "cat"@, args: args, err_filter: Option::None }
}

/// The prelude: the compiler invocation, its error stream diverted through
/// the build-tool noise filter, feeding a buffering stage — present exactly
/// when a temporary output file is in use.
pub open spec fn plan_prelude(
    argv: Seq<Seq<char>>,
    cargo_bin: Seq<char>,
    outfile: Option<Seq<char>>,
    stderr_tty: bool,
) -> Seq<StageView> {
    match outfile {
        Option::None => Seq::empty(),
        Option::Some(_) => seq![
            StageView {
                program: cargo_bin,
                args: synthesized_args(argv, outfile, stderr_tty),
                err_filter: Option::Some(FilterKind::BuildTool),
            },
            cat_view(Seq::empty()),
        ],
    }
}

/// The fixed arguments handed to the syntax highlighter.
pub open spec fn highlight_args() -> Seq<Seq<char>> {
    seq!["-l"@, "rust"@, "-O"@, "encoding=utf8"@]
}

/// The main chain: the compiler invocation itself (or, with a temporary
/// file, a stage reading that file back), then the formatter with its error
/// stream diverted through the formatter-noise filter and a buffering stage
/// after it, then the highlighter — each optional stage present exactly when
/// its tool is.
pub open spec fn plan_chain(
    argv: Seq<Seq<char>>,
    cargo_bin: Seq<char>,
    rustfmt: Option<Seq<char>>,
    pygmentize: Option<Seq<char>>,
    outfile: Option<Seq<char>>,
    stderr_tty: bool,
) -> Seq<StageView> {
    (match outfile {
        Option::None => seq![
            StageView {
                program: cargo_bin,
                args: synthesized_args(argv, Option::None, stderr_tty),
                err_filter: Option::None,
            },
        ],
        Option::Some(p) => seq![cat_view(seq![p])],
    }) + (match rustfmt {
        Option::None => Seq::empty(),
        Option::Some(f) => seq![
            StageView { program: f, args: Seq::empty(), err_filter: Option::Some(FilterKind::Formatter) },
            cat_view(Seq::empty()),
        ],
    }) + (match pygmentize {
        Option::None => Seq::empty(),
        Option::Some(g) => seq![
            StageView { program: g, args: highlight_args(), err_filter: Option::None },
        ],
    })
}

/// Build the pipeline plan from the raw arguments, the build tool's binary
/// name, the probed post-processing tools, and the temporary output path —
/// which is in use exactly when at least one tool is present.
pub fn build_plan(
    argv: &Vec<String>,
    cargo_bin: &String,
    rustfmt: Option<&String>,
    pygmentize: Option<&String>,
    outfile: Option<&String>,
    stderr_tty: bool,
) -> (p: Plan)
    requires
        outfile is Some <==> (rustfmt is Some || pygmentize is Some),
    ensures
        p.uses_tempfile == (rustfmt is Some || pygmentize is Some),
        p.prelude.deep_view() == plan_prelude(
            argv.deep_view(),
            cargo_bin@,
            opt_str_view(outfile),
            stderr_tty,
        ),
        p.chain.deep_view() == plan_chain(
            argv.deep_view(),
            cargo_bin@,
            opt_str_view(rustfmt),
            opt_str_view(pygmentize),
            opt_str_view(outfile),
            stderr_tty,
        ),
{
    let uses_tempfile = rustfmt.is_some() || pygmentize.is_some();
    let mut prelude: Vec<Stage> = Vec::new();
    let mut chain: Vec<Stage> = Vec::new();
    match outfile {
        Option::Some(path) => {
            let cargo_args = wrap_args(argv, Option::Some(path), stderr_tty);
            prelude.push(
                Stage {
                    program: (*cargo_bin).clone(),
                    args: cargo_args,
                    err_filter: Option::Some(FilterKind::BuildTool),
                },
            );
            prelude.push(
                Stage { program: "cat".to_owned(), args: Vec::new(), err_filter: Option::None },
            );
            let mut cat_args: Vec<String> = Vec::new();
            cat_args.push((*path).clone());
            chain.push(
                Stage { program: "cat".to_owned(), args: cat_args, err_filter: Option::None },
            );
            proof {
                assert(prelude.deep_view() =~~= plan_prelude(
                    argv.deep_view(),
                    cargo_bin@,
                    opt_str_view(outfile),
                    stderr_tty,
                ));
            }
        },
        Option::None => {
            let cargo_args = wrap_args(argv, Option::None, stderr_tty);
            chain.push(
                Stage {
                    program: (*cargo_bin).clone(),
                    args: cargo_args,
                    err_filter: Option::None,
                },
            );
            proof {
                assert(prelude.deep_view() =~~= plan_prelude(
                    argv.deep_view(),
                    cargo_bin@,
                    opt_str_view(outfile),
                    stderr_tty,
                ));
            }
        },
    }
    let ghost chain_head: Seq<StageView> = chain.deep_view();
    match rustfmt {
        Option::Some(f) => {
            chain.push(
                Stage {
                    program: (*f).clone(),
                    args: Vec::new(),
                    err_filter: Option::Some(FilterKind::Formatter),
                },
            );
            chain.push(
                Stage { program: "cat".to_owned(), args: Vec::new(), err_filter: Option::None },
            );
        },
        Option::None => {},
    }
    match pygmentize {
        Option::Some(g) => {
            let mut hargs: Vec<String> = Vec::new();
            hargs.push("-l".to_owned());
            hargs.push("rust".to_owned());
            hargs.push("-O".to_owned());
            hargs.push("encoding=utf8".to_owned());
            proof {
                assert(views_of(hargs@) =~= highlight_args());
            }
            chain.push(
                Stage { program: (*g).clone(), args: hargs, err_filter: Option::None },
            );
        },
        Option::None => {},
    }
    proof {
        assert(chain.deep_view() =~~= plan_chain(
            argv.deep_view(),
            cargo_bin@,
            opt_str_view(rustfmt),
            opt_str_view(pygmentize),
            opt_str_view(outfile),
            stderr_tty,
        ));
    }
    Plan { uses_tempfile, prelude, chain }
}

} // verus!
