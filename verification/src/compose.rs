use vstd::prelude::*;
use crate::config::{BuildTarget, PipelineConfig};
use crate::paths::{format_classname, get_classpath, spec_classpath, spec_format_classname};
use crate::sources::{seq_views, SourceSet};

verus! {

/// One external tool run: the program, its ordered argument vector, and the
/// output directory the stage writes into, when it has one. The argument
/// order is deterministic — search-path and module flags first, then the
/// sources or the target, then the verbosity flag — because the external
/// tools are order-sensitive.
pub struct ToolInvocation {
    pub program: String,
    pub args: Vec<String>,
    pub out_dir: Option<String>,
}

/// The module list handed to the toolchain whenever a module path is given.
pub open spec fn spec_modules_list() -> Seq<char> {
    "javafx.base,javafx.controls,javafx.graphics,javafx.fxml,javafx.media,javafx.swing,javafx.web"@
}

/// The view of an optional module path.
pub open spec fn spec_module_view(mp: Option<String>) -> Option<Seq<char>> {
    match mp {
        Option::None => Option::None,
        Option::Some(s) => Option::Some(s@),
    }
}

/// The module flags: empty without a module path, else the path and the
/// fixed module list.
pub open spec fn spec_module_args(mp: Option<Seq<char>>) -> Seq<Seq<char>> {
    match mp {
        Option::None => Seq::empty(),
        Option::Some(l) => seq!["--module-path"@, l, "--add-modules"@, spec_modules_list()],
    }
}

/// The compiler's argument vector: classpath and output directory, module
/// flags, encoding, the resolved sources in order, and exactly one of the
/// two mutually exclusive verbosity flags, last.
pub open spec fn spec_compile_args(c: PipelineConfig, files: Seq<Seq<char>>) -> Seq<Seq<char>> {
    seq!["-classpath"@, spec_classpath(c.platform), "-d"@, "class/"@] + spec_module_args(
        spec_module_view(c.module_dir),
    ) + seq!["-encoding"@, "UTF-8"@] + files + seq![
        if c.verbose {
            "-verbose"@
        } else {
            "-Xdoclint:none"@
        },
    ]
}

/// The class the runtime launcher starts: the requested qualifier, or the
/// fixed default entry point for a full target.
pub open spec fn spec_run_target(t: BuildTarget) -> Seq<char> {
    match t {
        BuildTarget::Full => "controleur.Main"@,
        BuildTarget::Single(q) => q@,
    }
}

/// The launcher's argument vector: classpath, module flags, and the single
/// logical target, last.
pub open spec fn spec_launch_args(c: PipelineConfig, t: BuildTarget) -> Seq<Seq<char>> {
    seq!["-classpath"@, spec_classpath(c.platform)] + spec_module_args(
        spec_module_view(c.module_dir),
    ) + seq![spec_run_target(t)]
}

/// The documentation generator's argument vector: output directory,
/// classpath, the author flag, then the sources.
pub open spec fn spec_doc_args(c: PipelineConfig, files: Seq<Seq<char>>) -> Seq<Seq<char>> {
    seq!["-d"@, "doc/"@, "-classpath"@, spec_classpath(c.platform), "-author"@] + files
}

/// The test runner's argument vector: classpath, module flags, the runner's
/// entry class, then one derived class name per test source, in order.
pub open spec fn spec_test_run_args(c: PipelineConfig, files: Seq<Seq<char>>) -> Seq<Seq<char>> {
    seq!["-classpath"@, spec_classpath(c.platform)] + spec_module_args(
        spec_module_view(c.module_dir),
    ) + seq!["org.junit.runner.JUnitCore"@] + files.map_values(|f: Seq<char>| spec_format_classname(f))
}

/// Appends one argument, keeping the views of the vector in step.
fn push_arg(args: &mut Vec<String>, x: String)
    ensures
        seq_views(final(args)@) == seq_views(old(args)@).push(x@),
{
    args.push(x);
    proof {
        assert(seq_views(args@) =~= seq_views(old(args)@).push(args@.last()@));
    }
}

/// Appends the module flags when a module path is configured.
fn push_module_args(args: &mut Vec<String>, module_dir: &Option<String>)
    ensures
        seq_views(final(args)@) == seq_views(old(args)@) + spec_module_args(
            spec_module_view(*module_dir),
        ),
{
    match module_dir {
        Option::None => {
            proof {
                assert(seq_views(args@) =~= seq_views(args@) + Seq::<Seq<char>>::empty());
            }
        },
        Option::Some(lib) => {
            push_arg(args, String::from_str("--module-path"));
            push_arg(args, lib.clone());
            push_arg(args, String::from_str("--add-modules"));
            push_arg(
                args,
                String::from_str(
                    "javafx.base,javafx.controls,javafx.graphics,javafx.fxml,javafx.media,javafx.swing,javafx.web",
                ),
            );
            proof {
                assert(seq_views(args@) =~= seq_views(old(args)@) + spec_module_args(
                    spec_module_view(*module_dir),
                ));
            }
        },
    }
}

/// Appends a clone of every resolved source path, in order.
fn push_sources(args: &mut Vec<String>, sources: &SourceSet)
    ensures
        seq_views(final(args)@) == seq_views(old(args)@) + seq_views(sources.files@),
{
    let n = sources.files.len();
    let mut i: usize = 0;
    proof {
        assert(seq_views(args@) =~= seq_views(args@) + seq_views(sources.files@).take(0));
    }
    while i < n
        invariant
            n == sources.files@.len(),
            i <= n,
            seq_views(args@) == seq_views(old(args)@) + seq_views(sources.files@).take(i as int),
        decreases n - i,
    {
        let x = sources.files[i].clone();
        push_arg(args, x);
        proof {
            assert((seq_views(old(args)@) + seq_views(sources.files@).take(i as int)).push(
                sources.files@[i as int]@,
            ) =~= seq_views(old(args)@) + seq_views(sources.files@).take(i + 1));
        }
        i = i + 1;
    }
    proof {
        assert(seq_views(sources.files@).take(n as int) =~= seq_views(sources.files@));
    }
}

/// The compile-stage invocation for the given sources.
pub fn compose_compile(config: &PipelineConfig, sources: &SourceSet) -> (inv: ToolInvocation)
    ensures
        inv.program@ == "javac"@,
        seq_views(inv.args@) == spec_compile_args(*config, seq_views(sources.files@)),
        inv.out_dir matches Some(d) && d@ == "class/"@,
{
    let mut args: Vec<String> = Vec::new();
    push_arg(&mut args, String::from_str("-classpath"));
    push_arg(&mut args, get_classpath(&config.platform));
    push_arg(&mut args, String::from_str("-d"));
    push_arg(&mut args, String::from_str("class/"));
    push_module_args(&mut args, &config.module_dir);
    push_arg(&mut args, String::from_str("-encoding"));
    push_arg(&mut args, String::from_str("UTF-8"));
    push_sources(&mut args, sources);
    if config.verbose {
        push_arg(&mut args, String::from_str("-verbose"));
    } else {
        push_arg(&mut args, String::from_str("-Xdoclint:none"));
    }
    proof {
        assert(seq_views(args@) =~= spec_compile_args(*config, seq_views(sources.files@)));
    }
    ToolInvocation { program: String::from_str("javac"), args, out_dir: Some(
        String::from_str("class/"),
    ) }
}

/// The run-stage invocation: the launcher started on the requested target,
/// or on the fixed default entry point for a full target.
pub fn compose_launch(config: &PipelineConfig, target: &BuildTarget) -> (inv: ToolInvocation)
    ensures
        inv.program@ == "java"@,
        seq_views(inv.args@) == spec_launch_args(*config, *target),
        inv.out_dir is None,
{
    let mut args: Vec<String> = Vec::new();
    push_arg(&mut args, String::from_str("-classpath"));
    push_arg(&mut args, get_classpath(&config.platform));
    push_module_args(&mut args, &config.module_dir);
    match target {
        BuildTarget::Full => push_arg(&mut args, String::from_str("controleur.Main")),
        BuildTarget::Single(q) => push_arg(&mut args, q.clone()),
    }
    proof {
        assert(seq_views(args@) =~= spec_launch_args(*config, *target));
    }
    ToolInvocation { program: String::from_str("java"), args, out_dir: None }
}

/// The documentation invocation over the given sources.
pub fn compose_doc(config: &PipelineConfig, sources: &SourceSet) -> (inv: ToolInvocation)
    ensures
        inv.program@ == "javadoc"@,
        seq_views(inv.args@) == spec_doc_args(*config, seq_views(sources.files@)),
        inv.out_dir matches Some(d) && d@ == "doc/"@,
{
    let mut args: Vec<String> = Vec::new();
    push_arg(&mut args, String::from_str("-d"));
    push_arg(&mut args, String::from_str("doc/"));
    push_arg(&mut args, String::from_str("-classpath"));
    push_arg(&mut args, get_classpath(&config.platform));
    push_arg(&mut args, String::from_str("-author"));
    push_sources(&mut args, sources);
    proof {
        assert(seq_views(args@) =~= spec_doc_args(*config, seq_views(sources.files@)));
    }
    ToolInvocation { program: String::from_str("javadoc"), args, out_dir: Some(
        String::from_str("doc/"),
    ) }
}

/// The test-runner invocation: the logical test-class names are derived from
/// the test source paths, in order, and handed to the external runner.
pub fn compose_test_run(config: &PipelineConfig, sources: &SourceSet) -> (inv: ToolInvocation)
    ensures
        inv.program@ == "java"@,
        seq_views(inv.args@) == spec_test_run_args(*config, seq_views(sources.files@)),
        inv.out_dir is None,
{
    let mut args: Vec<String> = Vec::new();
    push_arg(&mut args, String::from_str("-classpath"));
    push_arg(&mut args, get_classpath(&config.platform));
    push_module_args(&mut args, &config.module_dir);
    push_arg(&mut args, String::from_str("org.junit.runner.JUnitCore"));
    let ghost head = seq_views(args@);
    let ghost names = seq_views(sources.files@).map_values(
        |f: Seq<char>| spec_format_classname(f),
    );
    let n = sources.files.len();
    let mut i: usize = 0;
    proof {
        assert(seq_views(args@) =~= head + names.take(0));
    }
    while i < n
        invariant
            n == sources.files@.len(),
            names == seq_views(sources.files@).map_values(
                |f: Seq<char>| spec_format_classname(f),
            ),
            i <= n,
            seq_views(args@) == head + names.take(i as int),
        decreases n - i,
    {
        let name = format_classname(&sources.files[i]);
        push_arg(&mut args, name);
        proof {
            assert(names[i as int] == spec_format_classname(sources.files@[i as int]@));
            assert((head + names.take(i as int)).push(names[i as int]) =~= head + names.take(
                i + 1,
            ));
        }
        i = i + 1;
    }
    proof {
        assert(names.take(n as int) =~= names);
        assert(head + names =~= spec_test_run_args(*config, seq_views(sources.files@)));
    }
    ToolInvocation { program: String::from_str("java"), args, out_dir: None }
}

} // verus!
