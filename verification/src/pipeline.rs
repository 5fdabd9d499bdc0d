use vstd::prelude::*;
use crate::config::Command;

verus! {

/// The subcommand driving one pipeline run, stripped of its data: the
/// controller's transitions depend only on which command runs, never on the
/// target's name or the resolved paths.
#[derive(Clone, Copy, PartialEq, Eq, Structural, Debug)]
pub enum CommandKind {
    Build,
    Launch,
    Document,
    RunTests,
}

/// The stage whose external process the driver is asked to execute.
#[derive(Clone, Copy, PartialEq, Eq, Structural, Debug)]
pub enum StageKind {
    LaunchStage,
    TestStage,
    DocStage,
}

/// What a successful build is followed by.
#[derive(Clone, Copy, PartialEq, Eq, Structural, Debug)]
pub enum FollowUp {
    Finish,
    LaunchApp,
    RunTestClasses,
}

/// Where the pipeline controller stands. A failed compile is terminal;
/// resource synchronization runs after every successful compile, before any
/// run or test stage; documentation needs no compile.
#[derive(Clone, Copy, PartialEq, Eq, Structural, Debug)]
pub enum PipelineState {
    Idle,
    Resolving { kind: CommandKind },
    Compiling { follow: FollowUp },
    ResourceSyncing { follow: FollowUp },
    Running,
    Testing,
    Documenting,
    CompileFailed { code: i32 },
    Done { code: i32 },
}

/// What the driver reports back to the controller: the start of a run, the
/// outcome of source resolution, a finished external tool with its captured
/// exit status, a tool that could not be spawned at all, or the outcome of
/// the asset copies.
#[derive(Clone, Copy, PartialEq, Eq, Structural, Debug)]
pub enum Event {
    Started { kind: CommandKind },
    Resolved { ok: bool },
    ToolFinished { exit_code: i32 },
    LaunchFailed,
    AssetsCopied { ok: bool },
}

/// What the controller asks the driver to do next. `Hold` answers an event
/// that the current state cannot consume and asks for nothing.
#[derive(Clone, Copy, PartialEq, Eq, Structural, Debug)]
pub enum Action {
    ResolveSources,
    CompileSources,
    SyncAssets,
    RunStage { stage: StageKind },
    Quit { code: i32 },
    Hold,
}

/// The controller's transition relation: from a state and an event to the
/// next state and the action the driver performs. A compile that exits
/// non-zero moves to the terminal failed state, carrying and exiting with
/// the compiler's own status; from the terminal states every event asks only
/// to quit. The stages that run after a successful build report their status
/// but do not change the orchestrator's own exit code.
pub open spec fn spec_step(s: PipelineState, e: Event) -> (PipelineState, Action) {
    match (s, e) {
        (PipelineState::CompileFailed { code }, _) => (
            PipelineState::CompileFailed { code },
            Action::Quit { code },
        ),
        (PipelineState::Done { code }, _) => (PipelineState::Done { code }, Action::Quit { code }),
        (_, Event::LaunchFailed) => (PipelineState::Done { code: 1 }, Action::Quit { code: 1 }),
        (PipelineState::Idle, Event::Started { kind }) => (
            PipelineState::Resolving { kind },
            Action::ResolveSources,
        ),
        (PipelineState::Resolving { kind }, Event::Resolved { ok }) => {
            if !ok {
                (PipelineState::Done { code: 1 }, Action::Quit { code: 1 })
            } else {
                match kind {
                    CommandKind::Document => (
                        PipelineState::Documenting,
                        Action::RunStage { stage: StageKind::DocStage },
                    ),
                    CommandKind::Build => (
                        PipelineState::Compiling { follow: FollowUp::Finish },
                        Action::CompileSources,
                    ),
                    CommandKind::Launch => (
                        PipelineState::Compiling { follow: FollowUp::LaunchApp },
                        Action::CompileSources,
                    ),
                    CommandKind::RunTests => (
                        PipelineState::Compiling { follow: FollowUp::RunTestClasses },
                        Action::CompileSources,
                    ),
                }
            }
        },
        (PipelineState::Compiling { follow }, Event::ToolFinished { exit_code }) => {
            if exit_code == 0 {
                (PipelineState::ResourceSyncing { follow }, Action::SyncAssets)
            } else {
                (PipelineState::CompileFailed { code: exit_code }, Action::Quit { code: exit_code })
            }
        },
        (PipelineState::ResourceSyncing { follow }, Event::AssetsCopied { ok }) => {
            if !ok {
                (PipelineState::Done { code: 1 }, Action::Quit { code: 1 })
            } else {
                match follow {
                    FollowUp::Finish => (PipelineState::Done { code: 0 }, Action::Quit { code: 0 }),
                    FollowUp::LaunchApp => (
                        PipelineState::Running,
                        Action::RunStage { stage: StageKind::LaunchStage },
                    ),
                    FollowUp::RunTestClasses => (
                        PipelineState::Testing,
                        Action::RunStage { stage: StageKind::TestStage },
                    ),
                }
            }
        },
        (PipelineState::Running, Event::ToolFinished { .. }) => (
            PipelineState::Done { code: 0 },
            Action::Quit { code: 0 },
        ),
        (PipelineState::Testing, Event::ToolFinished { .. }) => (
            PipelineState::Done { code: 0 },
            Action::Quit { code: 0 },
        ),
        (PipelineState::Documenting, Event::ToolFinished { .. }) => (
            PipelineState::Done { code: 0 },
            Action::Quit { code: 0 },
        ),
        (other, _) => (other, Action::Hold),
    }
}

/// One controller step, exactly the transition relation.
pub fn step(state: PipelineState, event: Event) -> (r: (PipelineState, Action))
    ensures
        r == spec_step(state, event),
{
    match (state, event) {
        (PipelineState::CompileFailed { code }, _) => (
            PipelineState::CompileFailed { code },
            Action::Quit { code },
        ),
        (PipelineState::Done { code }, _) => (PipelineState::Done { code }, Action::Quit { code }),
        (_, Event::LaunchFailed) => (PipelineState::Done { code: 1 }, Action::Quit { code: 1 }),
        (PipelineState::Idle, Event::Started { kind }) => (
            PipelineState::Resolving { kind },
            Action::ResolveSources,
        ),
        (PipelineState::Resolving { kind }, Event::Resolved { ok }) => {
            if !ok {
                (PipelineState::Done { code: 1 }, Action::Quit { code: 1 })
            } else {
                match kind {
                    CommandKind::Document => (
                        PipelineState::Documenting,
                        Action::RunStage { stage: StageKind::DocStage },
                    ),
                    CommandKind::Build => (
                        PipelineState::Compiling { follow: FollowUp::Finish },
                        Action::CompileSources,
                    ),
                    CommandKind::Launch => (
                        PipelineState::Compiling { follow: FollowUp::LaunchApp },
                        Action::CompileSources,
                    ),
                    CommandKind::RunTests => (
                        PipelineState::Compiling { follow: FollowUp::RunTestClasses },
                        Action::CompileSources,
                    ),
                }
            }
        },
        (PipelineState::Compiling { follow }, Event::ToolFinished { exit_code }) => {
            if exit_code == 0 {
                (PipelineState::ResourceSyncing { follow }, Action::SyncAssets)
            } else {
                (PipelineState::CompileFailed { code: exit_code }, Action::Quit { code: exit_code })
            }
        },
        (PipelineState::ResourceSyncing { follow }, Event::AssetsCopied { ok }) => {
            if !ok {
                (PipelineState::Done { code: 1 }, Action::Quit { code: 1 })
            } else {
                match follow {
                    FollowUp::Finish => (PipelineState::Done { code: 0 }, Action::Quit { code: 0 }),
                    FollowUp::LaunchApp => (
                        PipelineState::Running,
                        Action::RunStage { stage: StageKind::LaunchStage },
                    ),
                    FollowUp::RunTestClasses => (
                        PipelineState::Testing,
                        Action::RunStage { stage: StageKind::TestStage },
                    ),
                }
            }
        },
        (PipelineState::Running, Event::ToolFinished { .. }) => (
            PipelineState::Done { code: 0 },
            Action::Quit { code: 0 },
        ),
        (PipelineState::Testing, Event::ToolFinished { .. }) => (
            PipelineState::Done { code: 0 },
            Action::Quit { code: 0 },
        ),
        (PipelineState::Documenting, Event::ToolFinished { .. }) => (
            PipelineState::Done { code: 0 },
            Action::Quit { code: 0 },
        ),
        (other, _) => (other, Action::Hold),
    }
}

/// The state after consuming the events in order.
pub open spec fn spec_run_events(s: PipelineState, events: Seq<Event>) -> PipelineState
    decreases events.len(),
{
    if events.len() == 0 {
        s
    } else {
        spec_run_events(spec_step(s, events[0]).0, events.skip(1))
    }
}

/// A non-zero captured compile status is terminal: the controller moves to
/// the failed state carrying that status and asks only to exit with it — in
/// particular it does not ask for the resource synchronizer or any stage.
pub proof fn lemma_compile_failure_halts(follow: FollowUp, exit_code: i32)
    requires
        exit_code != 0,
    ensures
        spec_step(PipelineState::Compiling { follow }, Event::ToolFinished { exit_code }).0
            == (PipelineState::CompileFailed { code: exit_code }),
        spec_step(PipelineState::Compiling { follow }, Event::ToolFinished { exit_code }).1
            == (Action::Quit { code: exit_code }),
{
}

/// The failed state absorbs every event, always asking only to quit.
pub proof fn lemma_compile_failed_absorbing(code: i32, e: Event)
    ensures
        spec_step(PipelineState::CompileFailed { code }, e).0 == (PipelineState::CompileFailed {
            code,
        }),
        spec_step(PipelineState::CompileFailed { code }, e).1 == (Action::Quit { code }),
{
}

proof fn lemma_failed_stays(code: i32, events: Seq<Event>)
    ensures
        spec_run_events(PipelineState::CompileFailed { code }, events)
            == (PipelineState::CompileFailed { code }),
    decreases events.len(),
{
    if events.len() == 0 {
    } else {
        lemma_failed_stays(code, events.skip(1));
    }
}

/// After a compile stage whose captured exit status is non-zero, the
/// resource synchronizer is never invoked and no run, test or documentation
/// stage executes: whatever events follow and however many, every later
/// action is the exit request carrying the compiler's status.
pub proof fn lemma_no_stage_after_failed_compile(
    follow: FollowUp,
    exit_code: i32,
    events: Seq<Event>,
    j: int,
)
    requires
        exit_code != 0,
        0 <= j < events.len(),
    ensures
        ({
            let failed = spec_step(
                PipelineState::Compiling { follow },
                Event::ToolFinished { exit_code },
            ).0;
            let later = spec_run_events(failed, events.take(j));
            spec_step(later, events[j]).1 == (Action::Quit { code: exit_code })
        }),
{
    lemma_compile_failure_halts(follow, exit_code);
    lemma_failed_stays(exit_code, events.take(j));
    lemma_compile_failed_absorbing(exit_code, events[j]);
}

/// Resource synchronization stands exactly between a successful compile and
/// the stages that need the assets in place: the controller asks for the
/// synchronizer precisely when a compile has just exited zero, and it asks
/// for a run or test stage only right after a successful synchronization.
pub proof fn lemma_sync_follows_successful_compile(s: PipelineState, e: Event)
    ensures
        (spec_step(s, e).1 == Action::SyncAssets) <==> (s matches PipelineState::Compiling { .. }
            && (e matches Event::ToolFinished { exit_code } && exit_code == 0)),
        (spec_step(s, e).1 matches Action::RunStage { stage } && stage != StageKind::DocStage) ==> (
        s matches PipelineState::ResourceSyncing { .. } && e == (Event::AssetsCopied { ok: true })),
{
}

/// The captured outcome of one external process: its exit status and both
/// output streams, read only after the process has terminated. It is created
/// once per executed stage and consumed at once by the controller.
pub struct StageResult {
    pub exit_code: i32,
    pub stdout: String,
    pub stderr: String,
}

/// Whether the stage's process reported success.
pub fn stage_succeeded(r: &StageResult) -> (b: bool)
    ensures
        b == (r.exit_code == 0),
{
    r.exit_code == 0
}

/// The event reporting a finished tool stage to the controller.
pub fn stage_event(r: &StageResult) -> (e: Event)
    ensures
        e == (Event::ToolFinished { exit_code: r.exit_code }),
{
    Event::ToolFinished { exit_code: r.exit_code }
}

/// The kind of a parsed command.
pub open spec fn spec_command_kind(c: Command) -> CommandKind {
    match c {
        Command::Build => CommandKind::Build,
        Command::Launch { .. } => CommandKind::Launch,
        Command::Document => CommandKind::Document,
        Command::RunTests => CommandKind::RunTests,
    }
}

pub fn command_kind(c: &Command) -> (k: CommandKind)
    ensures
        k == spec_command_kind(*c),
{
    match c {
        Command::Build => CommandKind::Build,
        Command::Launch { .. } => CommandKind::Launch,
        Command::Document => CommandKind::Document,
        Command::RunTests => CommandKind::RunTests,
    }
}

} // verus!
