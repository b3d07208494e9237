//! Orchestration logic for a command-line front-end that expands macro-using
//! source by delegating to an external compiler toolchain, optionally
//! post-processing the result through a formatter and a syntax highlighter.
//!
//! This library holds the decision logic: synthesizing the compiler
//! invocation's argument list, classifying diagnostic noise, deciding when to
//! re-exec under a nightly-capable toolchain, interpreting capability probes,
//! and laying out the subprocess pipeline as data. The surrounding binary
//! performs the actual process spawning, terminal detection, and file I/O,
//! handing this library plain values.

pub mod args;
pub mod filter;
pub mod nightly;
pub mod pipeline;
pub mod probe;
pub mod strutil;
