use maker::compose::{compose_compile, compose_doc, compose_launch, compose_test_run};
use maker::config::{BuildTarget, Command, PipelineConfig};
use maker::pipeline::{
    command_kind, stage_event, stage_succeeded, step, Action, CommandKind, Event, PipelineState,
    StageKind, StageResult,
};
use maker::platform::Platform;
use maker::sources::{resolve_for_command, SourceSet};
use maker::sync::resolve_assets;

const UNIX_CLASSPATH: &str = "class:lib/mysql-connector-java-8.0.29.jar:lib/annotations-20.1.0.jar:lib/junit-4.13.2.jar:lib/hamcrest-core-1.3.jar";
const MODULES: &str = "javafx.base,javafx.controls,javafx.graphics,javafx.fxml,javafx.media,javafx.swing,javafx.web";

fn unix_config() -> PipelineConfig {
    PipelineConfig {
        platform: Platform::Unix,
        verbose: false,
        module_dir: Some("lib/lib".to_string()),
    }
}

fn source_set(paths: &[&str]) -> SourceSet {
    SourceSet { files: paths.iter().map(|p| p.to_string()).collect() }
}

#[test]
fn compile_arguments_are_ordered_and_complete() {
    let set = source_set(&["src/A.java", "src/B.java"]);
    let inv = compose_compile(&unix_config(), &set);
    assert_eq!(inv.program, "javac");
    assert_eq!(
        inv.args,
        vec![
            "-classpath".to_string(),
            UNIX_CLASSPATH.to_string(),
            "-d".to_string(),
            "class/".to_string(),
            "--module-path".to_string(),
            "lib/lib".to_string(),
            "--add-modules".to_string(),
            MODULES.to_string(),
            "-encoding".to_string(),
            "UTF-8".to_string(),
            "src/A.java".to_string(),
            "src/B.java".to_string(),
            "-Xdoclint:none".to_string(),
        ]
    );
    assert_eq!(inv.out_dir.as_deref(), Some("class/"));
}

#[test]
fn verbosity_flags_are_mutually_exclusive() {
    let set = source_set(&["src/A.java"]);
    let quiet = compose_compile(&unix_config(), &set);
    assert_eq!(quiet.args.last().unwrap(), "-Xdoclint:none");
    assert!(!quiet.args.contains(&"-verbose".to_string()));
    let mut config = unix_config();
    config.verbose = true;
    let loud = compose_compile(&config, &set);
    assert_eq!(loud.args.last().unwrap(), "-verbose");
    assert!(!loud.args.contains(&"-Xdoclint:none".to_string()));
}

#[test]
fn omitted_module_path_drops_the_module_flags() {
    let mut config = unix_config();
    config.module_dir = None;
    let inv = compose_compile(&config, &source_set(&[]));
    assert_eq!(
        inv.args,
        vec![
            "-classpath".to_string(),
            UNIX_CLASSPATH.to_string(),
            "-d".to_string(),
            "class/".to_string(),
            "-encoding".to_string(),
            "UTF-8".to_string(),
            "-Xdoclint:none".to_string(),
        ]
    );
}

#[test]
fn launch_defaults_to_the_fixed_entry_point() {
    let inv = compose_launch(&unix_config(), &BuildTarget::Full);
    assert_eq!(inv.program, "java");
    assert_eq!(inv.args.last().unwrap(), "controleur.Main");
}

#[test]
fn doc_invocation_lists_sources_after_the_flags() {
    let set = source_set(&["src/A.java", "src/B.java"]);
    let inv = compose_doc(&unix_config(), &set);
    assert_eq!(inv.program, "javadoc");
    assert_eq!(
        inv.args,
        vec![
            "-d".to_string(),
            "doc/".to_string(),
            "-classpath".to_string(),
            UNIX_CLASSPATH.to_string(),
            "-author".to_string(),
            "src/A.java".to_string(),
            "src/B.java".to_string(),
        ]
    );
    assert_eq!(inv.out_dir.as_deref(), Some("doc/"));
}

#[test]
fn test_runner_gets_derived_class_names() {
    let set = source_set(&["src/test/AppTest.java", "src/test/OtherTest.java"]);
    let inv = compose_test_run(&unix_config(), &set);
    assert_eq!(inv.program, "java");
    let n = inv.args.len();
    assert_eq!(inv.args[n - 3], "org.junit.runner.JUnitCore");
    assert_eq!(inv.args[n - 2], "test.AppTest");
    assert_eq!(inv.args[n - 1], "test.OtherTest");
}

#[test]
fn stage_results_feed_the_controller() {
    let good = StageResult { exit_code: 0, stdout: String::new(), stderr: String::new() };
    let bad = StageResult { exit_code: 3, stdout: String::new(), stderr: "boom".to_string() };
    assert!(stage_succeeded(&good));
    assert!(!stage_succeeded(&bad));
    assert_eq!(stage_event(&good), Event::ToolFinished { exit_code: 0 });
    assert_eq!(stage_event(&bad), Event::ToolFinished { exit_code: 3 });
}

#[test]
fn command_kinds_strip_the_data() {
    assert_eq!(command_kind(&Command::Build), CommandKind::Build);
    let launch = Command::Launch { target: BuildTarget::Single("vue.Login".to_string()) };
    assert_eq!(command_kind(&launch), CommandKind::Launch);
    assert_eq!(command_kind(&Command::Document), CommandKind::Document);
    assert_eq!(command_kind(&Command::RunTests), CommandKind::RunTests);
}

#[test]
fn full_build_walks_resolve_compile_sync_done() {
    let (s, a) = step(PipelineState::Idle, Event::Started { kind: CommandKind::Build });
    assert_eq!(s, PipelineState::Resolving { kind: CommandKind::Build });
    assert_eq!(a, Action::ResolveSources);
    let (s, a) = step(s, Event::Resolved { ok: true });
    assert_eq!(s, PipelineState::Compiling { follow: maker::pipeline::FollowUp::Finish });
    assert_eq!(a, Action::CompileSources);
    let (s, a) = step(s, Event::ToolFinished { exit_code: 0 });
    assert_eq!(a, Action::SyncAssets);
    let (s, a) = step(s, Event::AssetsCopied { ok: true });
    assert_eq!(s, PipelineState::Done { code: 0 });
    assert_eq!(a, Action::Quit { code: 0 });
}

#[test]
fn failed_compile_is_terminal_and_skips_every_stage() {
    let (s, _) = step(PipelineState::Idle, Event::Started { kind: CommandKind::RunTests });
    let (s, _) = step(s, Event::Resolved { ok: true });
    let (s, a) = step(s, Event::ToolFinished { exit_code: 2 });
    assert_eq!(s, PipelineState::CompileFailed { code: 2 });
    assert_eq!(a, Action::Quit { code: 2 });
    // Whatever arrives afterwards, the synchronizer and the stages stay out.
    let (s, a) = step(s, Event::AssetsCopied { ok: true });
    assert_eq!(s, PipelineState::CompileFailed { code: 2 });
    assert_eq!(a, Action::Quit { code: 2 });
    let (s, a) = step(s, Event::ToolFinished { exit_code: 0 });
    assert_eq!(s, PipelineState::CompileFailed { code: 2 });
    assert_eq!(a, Action::Quit { code: 2 });
}

#[test]
fn launch_flow_runs_after_the_sync() {
    let (s, _) = step(PipelineState::Idle, Event::Started { kind: CommandKind::Launch });
    let (s, _) = step(s, Event::Resolved { ok: true });
    let (s, a) = step(s, Event::ToolFinished { exit_code: 0 });
    assert_eq!(a, Action::SyncAssets);
    let (s, a) = step(s, Event::AssetsCopied { ok: true });
    assert_eq!(s, PipelineState::Running);
    assert_eq!(a, Action::RunStage { stage: StageKind::LaunchStage });
    let (s, a) = step(s, Event::ToolFinished { exit_code: 7 });
    // A failing launched program is reported but does not change the
    // orchestrator's own exit status.
    assert_eq!(s, PipelineState::Done { code: 0 });
    assert_eq!(a, Action::Quit { code: 0 });
}

#[test]
fn test_flow_runs_the_runner_after_the_sync() {
    let (s, _) = step(PipelineState::Idle, Event::Started { kind: CommandKind::RunTests });
    let (s, _) = step(s, Event::Resolved { ok: true });
    let (s, _) = step(s, Event::ToolFinished { exit_code: 0 });
    let (s, a) = step(s, Event::AssetsCopied { ok: true });
    assert_eq!(s, PipelineState::Testing);
    assert_eq!(a, Action::RunStage { stage: StageKind::TestStage });
}

#[test]
fn documentation_needs_no_compile() {
    let (s, _) = step(PipelineState::Idle, Event::Started { kind: CommandKind::Document });
    let (s, a) = step(s, Event::Resolved { ok: true });
    assert_eq!(s, PipelineState::Documenting);
    assert_eq!(a, Action::RunStage { stage: StageKind::DocStage });
    let (s, a) = step(s, Event::ToolFinished { exit_code: 0 });
    assert_eq!(s, PipelineState::Done { code: 0 });
    assert_eq!(a, Action::Quit { code: 0 });
}

#[test]
fn failed_resolution_quits_before_any_process() {
    let (s, _) = step(PipelineState::Idle, Event::Started { kind: CommandKind::Build });
    let (s, a) = step(s, Event::Resolved { ok: false });
    assert_eq!(s, PipelineState::Done { code: 1 });
    assert_eq!(a, Action::Quit { code: 1 });
}

#[test]
fn failed_asset_copy_is_fatal() {
    let (s, _) = step(PipelineState::Idle, Event::Started { kind: CommandKind::Build });
    let (s, _) = step(s, Event::Resolved { ok: true });
    let (s, _) = step(s, Event::ToolFinished { exit_code: 0 });
    let (s, a) = step(s, Event::AssetsCopied { ok: false });
    assert_eq!(s, PipelineState::Done { code: 1 });
    assert_eq!(a, Action::Quit { code: 1 });
}

#[test]
fn unlaunchable_tool_aborts_the_run() {
    let (s, _) = step(PipelineState::Idle, Event::Started { kind: CommandKind::Build });
    let (s, _) = step(s, Event::Resolved { ok: true });
    let (s, a) = step(s, Event::LaunchFailed);
    assert_eq!(s, PipelineState::Done { code: 1 });
    assert_eq!(a, Action::Quit { code: 1 });
}

#[test]
fn scenario1_empty_tree_full_build() {
    // An empty source tree: resolution finds nothing, the compiler is
    // invoked with zero source arguments, the synchronizer has zero assets
    // to copy, and the pipeline's outcome follows the compiler's own status.
    let set = resolve_for_command(&Command::Build).unwrap();
    assert!(set.files.is_empty());
    let inv = compose_compile(&unix_config(), &set);
    assert_eq!(inv.args.len(), 11);
    assert_eq!(inv.args[9], "UTF-8");
    assert_eq!(inv.args[10], "-Xdoclint:none");
    let assets = resolve_assets().unwrap();
    assert!(assets.is_empty());
    let (s, _) = step(PipelineState::Idle, Event::Started { kind: CommandKind::Build });
    let (s, _) = step(s, Event::Resolved { ok: true });
    let (s, a) = step(s, Event::ToolFinished { exit_code: 0 });
    assert_eq!(a, Action::SyncAssets);
    let (s, a) = step(s, Event::AssetsCopied { ok: true });
    assert_eq!(s, PipelineState::Done { code: 0 });
    assert_eq!(a, Action::Quit { code: 0 });
}

#[test]
fn scenario2_run_invocation_names_the_logical_target() {
    // `run` with target pkg.ClassName: the launcher's sole logical target
    // string is the qualifier itself, after a single-file resolution.
    let target = BuildTarget::Single("pkg.ClassName".to_string());
    let inv = compose_launch(&unix_config(), &target);
    assert_eq!(inv.program, "java");
    assert_eq!(inv.args.last().unwrap(), "pkg.ClassName");
    assert_eq!(
        inv.args,
        vec![
            "-classpath".to_string(),
            UNIX_CLASSPATH.to_string(),
            "--module-path".to_string(),
            "lib/lib".to_string(),
            "--add-modules".to_string(),
            MODULES.to_string(),
            "pkg.ClassName".to_string(),
        ]
    );
}
