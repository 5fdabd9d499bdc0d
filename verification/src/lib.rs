//! A build orchestrator for a small Java project: it resolves the set of
//! source files taking part in a build, composes the argument vectors for the
//! external toolchain (compiler, runtime launcher, documentation generator,
//! test runner), plans the copy of companion assets into the output tree, and
//! sequences the pipeline stages, halting after a failed compile.
//!
//! Everything that decides or computes lives here with a contract; the
//! surrounding binary only parses the command line, spawns the external
//! processes and performs the planned file copies.

pub mod compose;
pub mod config;
pub mod discovery;
pub mod errors;
pub mod pipeline;
pub mod platform;
pub mod paths;
pub mod sources;
pub mod sync;
pub mod text;

pub use platform::Platform;
