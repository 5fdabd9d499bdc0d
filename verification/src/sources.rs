use vstd::prelude::*;
use crate::config::{BuildTarget, Command};
use crate::discovery::{discover, path_exists, pattern_matches, pattern_ok};
use crate::errors::ConfigError;
use crate::paths::{format_filename, spec_format_filename};
use crate::text::{after_last, has_prefix, spec_after_last, spec_replace};

verus! {

/// The views of the elements of a sequence of strings.
pub open spec fn seq_views(v: Seq<String>) -> Seq<Seq<char>> {
    v.map_values(|s: String| s@)
}

/// `s` with every element equal to an earlier one removed: first occurrences
/// survive, in their original order.
pub open spec fn spec_dedup(s: Seq<Seq<char>>) -> Seq<Seq<char>>
    decreases s.len(),
{
    if s.len() == 0 {
        Seq::empty()
    } else {
        let prev = spec_dedup(s.drop_last());
        if prev.contains(s.last()) {
            prev
        } else {
            prev.push(s.last())
        }
    }
}

/// No element appears twice.
pub open spec fn spec_nodup(s: Seq<Seq<char>>) -> bool {
    forall|i: int, j: int| 0 <= i < j < s.len() ==> s[i] != s[j]
}

/// The ordered list of source files taking part in one build. It is resolved
/// afresh for every invocation and never cached; no path appears twice.
#[derive(Debug)]
pub struct SourceSet {
    pub files: Vec<String>,
}

impl SourceSet {
    /// No path appears twice.
    pub open spec fn wf(self) -> bool {
        forall|i: int, j: int|
            0 <= i < j < self.files@.len() ==> self.files@[i]@ != self.files@[j]@
    }
}

proof fn lemma_dedup_membership(s: Seq<Seq<char>>, x: Seq<char>)
    ensures
        spec_dedup(s).contains(x) <==> s.contains(x),
    decreases s.len(),
{
    if s.len() == 0 {
        assert(!s.contains(x));
        assert(!spec_dedup(s).contains(x));
    } else {
        lemma_dedup_membership(s.drop_last(), x);
        let prev = spec_dedup(s.drop_last());
        if s.contains(x) {
            let i = choose|i: int| 0 <= i < s.len() && s[i] == x;
            if i < s.len() - 1 {
                assert(s.drop_last()[i] == x);
                assert(s.drop_last().contains(x));
                if !prev.contains(s.last()) {
                    assert(prev.push(s.last())[choose|k: int|
                        0 <= k < prev.len() && prev[k] == x] == x);
                }
            } else {
                assert(s.last() == x);
                if prev.contains(s.last()) {
                } else {
                    assert(prev.push(s.last())[prev.len() as int] == x);
                }
            }
        }
        if spec_dedup(s).contains(x) {
            let d = spec_dedup(s);
            let k = choose|k: int| 0 <= k < d.len() && d[k] == x;
            if prev.contains(s.last()) {
                assert(prev.contains(x));
            } else {
                if k < prev.len() {
                    assert(prev[k] == x);
                } else {
                    assert(s.last() == x);
                    assert(s[s.len() - 1] == x);
                }
            }
            if prev.contains(x) {
                let m = choose|m: int| 0 <= m < prev.len() && prev[m] == x;
                assert(s.drop_last().contains(x));
                let t = choose|t: int| 0 <= t < s.drop_last().len() && s.drop_last()[t] == x;
                assert(s[t] == x);
            }
            assert(s.contains(x));
        }
    }
}

proof fn lemma_dedup_nodup(s: Seq<Seq<char>>)
    ensures
        spec_nodup(spec_dedup(s)),
    decreases s.len(),
{
    if s.len() == 0 {
    } else {
        lemma_dedup_nodup(s.drop_last());
        let prev = spec_dedup(s.drop_last());
        if !prev.contains(s.last()) {
            let d = prev.push(s.last());
            assert forall|i: int, j: int| 0 <= i < j < d.len() implies d[i] != d[j] by {
                if j == prev.len() {
                    assert(d[i] == prev[i]);
                    if d[i] == s.last() {
                        assert(prev.contains(s.last()));
                    }
                }
            }
        }
    }
}

proof fn lemma_dedup_split(a: Seq<Seq<char>>, b: Seq<Seq<char>>)
    ensures
        spec_dedup(a).is_prefix_of(spec_dedup(a + b)),
        forall|k: int|
            spec_dedup(a).len() <= k < spec_dedup(a + b).len() ==> !a.contains(
                spec_dedup(a + b)[k],
            ) && b.contains(spec_dedup(a + b)[k]),
    decreases b.len(),
{
    if b.len() == 0 {
        assert(a + b =~= a);
        assert(spec_dedup(a).is_prefix_of(spec_dedup(a)));
    } else {
        let b0 = b.drop_last();
        let x = b.last();
        lemma_dedup_split(a, b0);
        assert((a + b).drop_last() =~= a + b0);
        assert((a + b).len() > 0);
        assert((a + b).last() == x);
        let prev = spec_dedup(a + b0);
        assert(spec_dedup(a + b) == if prev.contains(x) {
            prev
        } else {
            prev.push(x)
        });
        assert forall|e: Seq<char>| b0.contains(e) implies b.contains(e) by {
            let t = choose|t: int| 0 <= t < b0.len() && b0[t] == e;
            assert(b[t] == e);
        }
        if prev.contains(x) {
        } else {
            let d = prev.push(x);
            assert(spec_dedup(a).is_prefix_of(prev));
            assert(spec_dedup(a) =~= d.subrange(0, spec_dedup(a).len() as int));
            if a.contains(x) {
                let t = choose|t: int| 0 <= t < a.len() && a[t] == x;
                assert((a + b0)[t] == x);
                assert((a + b0).contains(x));
                lemma_dedup_membership(a + b0, x);
            }
            assert(b[b.len() - 1] == x);
            assert(b.contains(x));
            assert forall|k: int|
                spec_dedup(a).len() <= k < d.len() implies !a.contains(d[k]) && b.contains(
                d[k],
            ) by {
                if k < prev.len() {
                    assert(d[k] == prev[k]);
                }
            }
        }
    }
}

/// For every full build: the composed source list holds the declaration
/// files first — its prefix is the deduplicated declaration list, and every
/// later entry is a discovered file that is no declaration file — and no
/// path appears twice.
pub proof fn lemma_full_build_order(decls: Seq<Seq<char>>, discovered: Seq<Seq<char>>)
    ensures
        spec_nodup(spec_dedup(decls + discovered)),
        spec_dedup(decls).is_prefix_of(spec_dedup(decls + discovered)),
        forall|k: int|
            spec_dedup(decls).len() <= k < spec_dedup(decls + discovered).len() ==> !decls.contains(
                spec_dedup(decls + discovered)[k],
            ) && discovered.contains(spec_dedup(decls + discovered)[k]),
{
    lemma_dedup_nodup(decls + discovered);
    lemma_dedup_split(decls, discovered);
}

proof fn lemma_dedup_keeps_property(s: Seq<Seq<char>>, prop: spec_fn(Seq<char>) -> bool)
    requires
        forall|k: int| 0 <= k < s.len() ==> #[trigger] prop(s[k]),
    ensures
        forall|i: int| 0 <= i < spec_dedup(s).len() ==> #[trigger] prop(spec_dedup(s)[i]),
{
    assert forall|i: int| 0 <= i < spec_dedup(s).len() implies #[trigger] prop(
        spec_dedup(s)[i],
    ) by {
        let x = spec_dedup(s)[i];
        assert(spec_dedup(s).contains(x));
        lemma_dedup_membership(s, x);
        let j = choose|j: int| 0 <= j < s.len() && s[j] == x;
        assert(prop(s[j]));
    }
}

/// Whether some element of `v` has the view of `x`.
fn contains_string(v: &Vec<String>, x: &String) -> (b: bool)
    ensures
        b == seq_views(v@).contains(x@),
{
    let n = v.len();
    let mut i: usize = 0;
    while i < n
        invariant
            n == v@.len(),
            i <= n,
            forall|k: int| 0 <= k < i ==> v@[k]@ != x@,
        decreases n - i,
    {
        if x.eq(&v[i]) {
            proof {
                assert(seq_views(v@)[i as int] == x@);
            }
            return true;
        }
        i = i + 1;
    }
    proof {
        if seq_views(v@).contains(x@) {
            let k = choose|k: int| 0 <= k < seq_views(v@).len() && seq_views(v@)[k] == x@;
            assert(v@[k]@ == x@);
        }
    }
    false
}

/// The source lists merged in order with duplicates dropped: the composed
/// list is exactly the deduplication of `decls` followed by `discovered`.
pub fn combine_sources(decls: &Vec<String>, discovered: &Vec<String>) -> (r: SourceSet)
    ensures
        seq_views(r.files@) == spec_dedup(seq_views(decls@) + seq_views(discovered@)),
        r.wf(),
{
    let ghost c = seq_views(decls@) + seq_views(discovered@);
    let mut files: Vec<String> = Vec::new();
    proof {
        assert(c.take(0) =~= Seq::<Seq<char>>::empty());
        assert(seq_views(files@) =~= spec_dedup(c.take(0)));
    }
    let dn = decls.len();
    let mut i: usize = 0;
    while i < dn
        invariant
            dn == decls@.len(),
            c == seq_views(decls@) + seq_views(discovered@),
            i <= dn,
            seq_views(files@) == spec_dedup(c.take(i as int)),
        decreases dn - i,
    {
        proof {
            assert(c.take(i + 1).drop_last() =~= c.take(i as int));
            assert(c.take(i + 1).last() == decls@[i as int]@);
        }
        if !contains_string(&files, &decls[i]) {
            let x = decls[i].clone();
            files.push(x);
            proof {
                assert(seq_views(files@) =~= spec_dedup(c.take(i as int)).push(
                    decls@[i as int]@,
                ));
            }
        }
        i = i + 1;
    }
    let fn_ = discovered.len();
    let mut j: usize = 0;
    proof {
        assert(c.take(dn as int) =~= c.take(dn + 0));
    }
    while j < fn_
        invariant
            dn == decls@.len(),
            fn_ == discovered@.len(),
            c == seq_views(decls@) + seq_views(discovered@),
            j <= fn_,
            seq_views(files@) == spec_dedup(c.take(dn + j)),
        decreases fn_ - j,
    {
        proof {
            assert(c.take(dn + j + 1).drop_last() =~= c.take(dn + j));
            assert(c.take(dn + j + 1).last() == discovered@[j as int]@);
        }
        if !contains_string(&files, &discovered[j]) {
            let x = discovered[j].clone();
            files.push(x);
            proof {
                assert(seq_views(files@) =~= spec_dedup(c.take(dn + j)).push(
                    discovered@[j as int]@,
                ));
            }
        }
        j = j + 1;
    }
    proof {
        assert(c.take(dn + fn_) =~= c);
        lemma_dedup_nodup(c);
        assert forall|p: int, q: int|
            0 <= p < q < files@.len() implies files@[p]@ != files@[q]@ by {
            assert(seq_views(files@)[p] == files@[p]@);
            assert(seq_views(files@)[q] == files@[q]@);
        }
    }
    SourceSet { files }
}

/// The fixed declaration files, compiled first in every full build so that
/// shared type declarations are seen before their users.
pub open spec fn spec_declaration_files() -> Seq<Seq<char>> {
    seq![
        "src/modele/donnee/ContenuNid.java"@,
        "src/modele/donnee/EspeceBatracien.java"@,
        "src/modele/donnee/EspeceChouette.java"@,
        "src/modele/donnee/EspeceHippocampe.java"@,
        "src/modele/donnee/EspeceObservee.java"@,
        "src/modele/donnee/IndiceLoutre.java"@,
        "src/modele/donnee/Peche.java"@,
        "src/modele/donnee/Sexe.java"@,
        "src/modele/donnee/TypeObservation.java"@,
    ]
}

pub fn declaration_files() -> (r: Vec<String>)
    ensures
        seq_views(r@) == spec_declaration_files(),
{
    let mut v: Vec<String> = Vec::new();
    v.push(String::from_str("src/modele/donnee/ContenuNid.java"));
    v.push(String::from_str("src/modele/donnee/EspeceBatracien.java"));
    v.push(String::from_str("src/modele/donnee/EspeceChouette.java"));
    v.push(String::from_str("src/modele/donnee/EspeceHippocampe.java"));
    v.push(String::from_str("src/modele/donnee/EspeceObservee.java"));
    v.push(String::from_str("src/modele/donnee/IndiceLoutre.java"));
    v.push(String::from_str("src/modele/donnee/Peche.java"));
    v.push(String::from_str("src/modele/donnee/Sexe.java"));
    v.push(String::from_str("src/modele/donnee/TypeObservation.java"));
    proof {
        assert(seq_views(v@) =~= spec_declaration_files());
    }
    v
}

/// The conventionally named companion controller probed for a view-layer
/// target: the last segment of the qualifier under the controller directory.
pub open spec fn spec_controller_path(q: Seq<char>) -> Seq<char> {
    "src/controleur/"@ + spec_after_last(q, '.') + "Controller.java"@
}

pub fn controller_path(qualifier: &String) -> (r: String)
    ensures
        r@ == spec_controller_path(qualifier@),
{
    let seg = after_last(qualifier.as_str(), '.');
    let mut r = String::from_str("src/controleur/");
    r.append(seg.as_str());
    r.append("Controller.java");
    proof {
        assert(("src/controleur/"@ + seg@) + "Controller.java"@ =~= spec_controller_path(
            qualifier@,
        ));
    }
    r
}

/// Whether a qualifier names a view-layer component.
pub open spec fn spec_is_view_target(q: Seq<char>) -> bool {
    "vue."@.is_prefix_of(q)
}

proof fn lemma_replace_head(s: Seq<char>, pat: Seq<char>, rep: Seq<char>)
    requires
        s.len() > 0,
        pat.len() > 0,
        s[0] != pat[0],
    ensures
        spec_replace(s, pat, rep).len() > 0,
        spec_replace(s, pat, rep)[0] == s[0],
{
    if s.len() < pat.len() {
    } else {
        assert(s.subrange(0, pat.len() as int)[0] == s[0]);
        assert(s.subrange(0, pat.len() as int) != pat);
    }
}

/// The source list for a single named target: the derived file path, and for
/// a view-layer target whose companion controller is present, that
/// controller too. A missing derived path fails resolution before any
/// process is spawned.
pub fn single_source_paths(qualifier: &String, main_present: bool, controller_present: bool) -> (r:
    Result<SourceSet, ConfigError>)
    ensures
        main_present <==> r is Ok,
        r matches Err(e) ==> (e matches ConfigError::TargetMissing { path } && path@
            == spec_format_filename(qualifier@)),
        r matches Ok(s) ==> {
            &&& s.wf()
            &&& s.files@.len() >= 1
            &&& s.files@[0]@ == spec_format_filename(qualifier@)
            &&& if spec_is_view_target(qualifier@) && controller_present {
                s.files@.len() == 2 && s.files@[1]@ == spec_controller_path(qualifier@)
            } else {
                s.files@.len() == 1
            }
        },
{
    let main = format_filename(qualifier);
    if !main_present {
        Err(ConfigError::TargetMissing { path: main })
    } else {
        let mut files: Vec<String> = Vec::new();
        let is_view = has_prefix(qualifier.as_str(), "vue.");
        if is_view && controller_present {
            let ctrl = controller_path(qualifier);
            proof {
                reveal_strlit("vue.");
                reveal_strlit(".");
                reveal_strlit("src/");
                reveal_strlit("src/controleur/");
                assert(qualifier@.len() >= 4);
                assert(qualifier@.subrange(0, 4) == "vue."@);
                assert(qualifier@.subrange(0, 4)[0] == qualifier@[0]);
                assert(qualifier@[0] == 'v');
                lemma_replace_head(qualifier@, "."@, "/"@);
                assert(main@[4] == 'v');
                assert(ctrl@[4] == 'c');
                assert(main@ != ctrl@);
            }
            files.push(main);
            files.push(ctrl);
            Ok(SourceSet { files })
        } else {
            files.push(main);
            Ok(SourceSet { files })
        }
    }
}

/// The full-build source set: the declaration files that exist, then every
/// source discovered under the source tree, without duplicates. It fails
/// exactly when the matcher rejects the fixed source pattern, and every path
/// it returns is a declaration file or matches that pattern.
pub fn resolve_full_sources() -> (r: Result<SourceSet, ConfigError>)
    ensures
        r is Ok <==> pattern_ok("./src/**/*.java"@),
        r matches Ok(s) ==> s.wf(),
        r matches Ok(s) ==> forall|i: int|
            0 <= i < s.files@.len() ==> #[trigger] spec_declaration_files().contains(s.files@[i]@)
                || pattern_matches("./src/**/*.java"@, s.files@[i]@),
        r matches Err(e) ==> e is InvalidPattern,
{
    let decls = declaration_files();
    let mut present: Vec<String> = Vec::new();
    let dn = decls.len();
    let mut i: usize = 0;
    while i < dn
        invariant
            dn == decls@.len(),
            seq_views(decls@) == spec_declaration_files(),
            i <= dn,
            forall|k: int|
                0 <= k < present@.len() ==> #[trigger] spec_declaration_files().contains(
                    present@[k]@,
                ),
        decreases dn - i,
    {
        if path_exists(decls[i].as_str()) {
            present.push(decls[i].clone());
            proof {
                assert(spec_declaration_files()[i as int] == decls@[i as int]@);
                assert(spec_declaration_files().contains(decls@[i as int]@));
            }
        }
        i = i + 1;
    }
    match discover("./src/**/*.java") {
        Ok(found) => {
            let set = combine_sources(&present, &found);
            proof {
                let pviews = seq_views(present@);
                let fviews = seq_views(found@);
                let both = pviews + fviews;
                let prop = |v: Seq<char>|
                    spec_declaration_files().contains(v) || pattern_matches(
                        "./src/**/*.java"@,
                        v,
                    );
                assert forall|k: int| 0 <= k < both.len() implies #[trigger] prop(both[k]) by {
                    if k < pviews.len() {
                        assert(both[k] == present@[k]@);
                        assert(spec_declaration_files().contains(present@[k]@));
                    } else {
                        assert(both[k] == found@[k - pviews.len()]@);
                        assert(pattern_matches("./src/**/*.java"@, found@[k - pviews.len()]@));
                    }
                }
                lemma_dedup_keeps_property(both, prop);
                assert forall|i2: int|
                    0 <= i2 < set.files@.len() implies #[trigger] spec_declaration_files().contains(
                    set.files@[i2]@,
                ) || pattern_matches("./src/**/*.java"@, set.files@[i2]@) by {
                    assert(seq_views(set.files@)[i2] == set.files@[i2]@);
                    assert(prop(spec_dedup(both)[i2]));
                }
            }
            Ok(set)
        },
        Err(e) => Err(e),
    }
}

/// The source set for a single named target, probing the filesystem for the
/// derived path and the companion controller.
pub fn resolve_single_sources(qualifier: &String) -> (r: Result<SourceSet, ConfigError>)
    ensures
        r matches Err(e) ==> (e matches ConfigError::TargetMissing { path } && path@
            == spec_format_filename(qualifier@)),
        r matches Ok(s) ==> {
            &&& s.wf()
            &&& 1 <= s.files@.len() <= 2
            &&& s.files@[0]@ == spec_format_filename(qualifier@)
            &&& (s.files@.len() == 2 ==> spec_is_view_target(qualifier@) && s.files@[1]@
                == spec_controller_path(qualifier@))
        },
{
    let main = format_filename(qualifier);
    let main_present = path_exists(main.as_str());
    let is_view = has_prefix(qualifier.as_str(), "vue.");
    let ctrl_present = if is_view {
        let ctrl = controller_path(qualifier);
        path_exists(ctrl.as_str())
    } else {
        false
    };
    single_source_paths(qualifier, main_present, ctrl_present)
}

proof fn lemma_discovered_set_matches(
    pat: Seq<char>,
    decls: Seq<String>,
    found: Seq<String>,
    set: SourceSet,
)
    requires
        decls.len() == 0,
        seq_views(set.files@) == spec_dedup(seq_views(decls) + seq_views(found)),
        forall|k: int| 0 <= k < found.len() ==> #[trigger] pattern_matches(pat, found[k]@),
    ensures
        forall|i: int|
            0 <= i < set.files@.len() ==> #[trigger] pattern_matches(pat, set.files@[i]@),
{
    let fviews = seq_views(found);
    assert(seq_views(decls) + fviews =~= fviews);
    let prop = |v: Seq<char>| pattern_matches(pat, v);
    assert forall|k: int| 0 <= k < fviews.len() implies #[trigger] prop(fviews[k]) by {
        assert(fviews[k] == found[k]@);
        assert(pattern_matches(pat, found[k]@));
    }
    lemma_dedup_keeps_property(fviews, prop);
    assert forall|i: int|
        0 <= i < set.files@.len() implies #[trigger] pattern_matches(pat, set.files@[i]@) by {
        assert(seq_views(set.files@)[i] == set.files@[i]@);
        assert(prop(spec_dedup(fviews)[i]));
    }
}

/// The dedicated test sources: only paths matching the fixed test-directory
/// pattern, without duplicates; it fails exactly when the matcher rejects
/// that pattern.
pub fn resolve_test_sources() -> (r: Result<SourceSet, ConfigError>)
    ensures
        r is Ok <==> pattern_ok("./src/test/*.java"@),
        r matches Ok(s) ==> s.wf(),
        r matches Ok(s) ==> forall|i: int|
            0 <= i < s.files@.len() ==> #[trigger] pattern_matches(
                "./src/test/*.java"@,
                s.files@[i]@,
            ),
        r matches Err(e) ==> e is InvalidPattern,
{
    let none: Vec<String> = Vec::new();
    match discover("./src/test/*.java") {
        Ok(found) => {
            let set = combine_sources(&none, &found);
            proof {
                lemma_discovered_set_matches("./src/test/*.java"@, none@, found@, set);
            }
            Ok(set)
        },
        Err(e) => Err(e),
    }
}

/// The sources handed to the documentation generator: every path matching
/// the fixed source-tree pattern, without duplicates and without the
/// declaration prefix; it fails exactly when the matcher rejects that
/// pattern.
pub fn resolve_doc_sources() -> (r: Result<SourceSet, ConfigError>)
    ensures
        r is Ok <==> pattern_ok("./src/**/*.java"@),
        r matches Ok(s) ==> s.wf(),
        r matches Ok(s) ==> forall|i: int|
            0 <= i < s.files@.len() ==> #[trigger] pattern_matches(
                "./src/**/*.java"@,
                s.files@[i]@,
            ),
        r matches Err(e) ==> e is InvalidPattern,
{
    let none: Vec<String> = Vec::new();
    match discover("./src/**/*.java") {
        Ok(found) => {
            let set = combine_sources(&none, &found);
            proof {
                lemma_discovered_set_matches("./src/**/*.java"@, none@, found@, set);
            }
            Ok(set)
        },
        Err(e) => Err(e),
    }
}

/// The source set a command builds: the full tree for a build or a full
/// launch, the derived single file and its companion controller for a single
/// launch target, the dedicated test subset for the test command, and the
/// whole tree for documentation.
pub fn resolve_for_command(command: &Command) -> (r: Result<SourceSet, ConfigError>)
    ensures
        r matches Ok(s) ==> s.wf(),
        (command matches Command::Build || command matches Command::Document || command matches
            Command::Launch { target: BuildTarget::Full }) ==> (r is Ok <==> pattern_ok(
            "./src/**/*.java"@,
        )),
        command matches Command::RunTests ==> (r is Ok <==> pattern_ok("./src/test/*.java"@)),
        command matches Command::Launch { target: BuildTarget::Single(q) } ==> {
            &&& (r matches Err(e) ==> e matches ConfigError::TargetMissing { path } && path@
                == spec_format_filename(q@))
            &&& (r matches Ok(s) ==> s.files@.len() >= 1 && s.files@[0]@ == spec_format_filename(
                q@,
            ))
        },
        !(command matches Command::Launch { target: BuildTarget::Single(..) }) ==> (r matches Err(e)
            ==> e is InvalidPattern),
{
    match command {
        Command::Build => resolve_full_sources(),
        Command::Launch { target } => match target {
            BuildTarget::Full => resolve_full_sources(),
            BuildTarget::Single(q) => resolve_single_sources(q),
        },
        Command::Document => resolve_doc_sources(),
        Command::RunTests => resolve_test_sources(),
    }
}

} // verus!
