use vstd::prelude::*;
use crate::platform::Platform;

verus! {

/// What one build works on: the whole source tree, or one dotted qualifier
/// naming a single logical entry point.
pub enum BuildTarget {
    Full,
    Single(String),
}

/// The subcommand the orchestrator was invoked with, already parsed and
/// normalized by the caller.
pub enum Command {
    Build,
    Launch { target: BuildTarget },
    Document,
    RunTests,
}

/// The recognized options of one pipeline run. The module path is optional:
/// when absent, no module flags are emitted. Everything a composed argument
/// vector depends on stands here explicitly, so composition is a pure
/// function of its inputs.
pub struct PipelineConfig {
    pub platform: Platform,
    pub verbose: bool,
    pub module_dir: Option<String>,
}

} // verus!
