use vstd::prelude::*;

verus! {

/// A fatal problem found before any external process is spawned: an invalid
/// file pattern, a missing runtime-library installation, or a single build
/// target whose derived source file does not exist.
#[derive(Debug)]
pub enum ConfigError {
    InvalidPattern { position: usize, message: String },
    RuntimeLibMissing,
    TargetMissing { path: String },
}

/// A failure to run an external tool at all: the executable was not found,
/// or the process could not be spawned or waited on. A tool that runs and
/// exits non-zero is not a launch error; its status is ordinary stage data.
#[derive(Debug)]
pub enum LaunchError {
    ToolNotFound { program: String },
    ExecutionFailure { program: String },
}

} // verus!
