use vstd::prelude::*;
use crate::discovery::{discover, pattern_matches, pattern_ok};
use crate::errors::ConfigError;
use crate::platform::{path_separator, spec_path_sep, Platform};
use crate::text::{after_last, spec_after_last};

verus! {

/// The flat directory inside the output tree that every companion asset is
/// copied into, written with the platform's separator.
pub open spec fn spec_dest_prefix(p: Platform) -> Seq<char> {
    match p {
        Platform::Windows => "class\\vue\\"@,
        Platform::Unix => "class/vue/"@,
    }
}

/// Where one companion asset lands: only its bare file name survives, under
/// the fixed asset directory — the source directory structure is
/// deliberately discarded.
pub open spec fn spec_dest_path(path: Seq<char>, p: Platform) -> Seq<char> {
    spec_dest_prefix(p) + spec_after_last(path, spec_path_sep(p))
}

pub fn asset_destination(path: &String, platform: &Platform) -> (r: String)
    ensures
        r@ == spec_dest_path(path@, *platform),
{
    let sep = path_separator(platform);
    let name = after_last(path.as_str(), sep);
    let mut r = match platform {
        Platform::Windows => String::from_str("class\\vue\\"),
        Platform::Unix => String::from_str("class/vue/"),
    };
    r.append(name.as_str());
    r
}

/// One planned copy: a companion asset and the destination it is written to.
pub struct PlannedCopy {
    pub source: String,
    pub dest: String,
}

/// The copy plan for the discovered assets: one planned copy per asset, in
/// discovery order, each flattened to its bare name under the asset
/// directory. The driver performs the copies in this order; any failing copy
/// is fatal and aborts the synchronizer.
pub fn copy_plan(assets: &Vec<String>, platform: &Platform) -> (r: Vec<PlannedCopy>)
    ensures
        r@.len() == assets@.len(),
        forall|i: int|
            0 <= i < r@.len() ==> r@[i].source@ == assets@[i]@ && r@[i].dest@ == spec_dest_path(
                assets@[i]@,
                *platform,
            ),
{
    let n = assets.len();
    let mut plan: Vec<PlannedCopy> = Vec::new();
    let mut i: usize = 0;
    while i < n
        invariant
            n == assets@.len(),
            i <= n,
            plan@.len() == i,
            forall|k: int|
                0 <= k < i ==> plan@[k].source@ == assets@[k]@ && plan@[k].dest@ == spec_dest_path(
                    assets@[k]@,
                    *platform,
                ),
        decreases n - i,
    {
        let dest = asset_destination(&assets[i], platform);
        let source = assets[i].clone();
        plan.push(PlannedCopy { source, dest });
        i = i + 1;
    }
    plan
}

/// Every companion asset under the source tree: the markup files, then the
/// stylesheet files, each list in discovery order. It fails exactly when the
/// matcher rejects one of the two fixed asset patterns, and every returned
/// path matches one of them.
pub fn resolve_assets() -> (r: Result<Vec<String>, ConfigError>)
    ensures
        r is Ok <==> pattern_ok("./src/**/*.fxml"@) && pattern_ok("./src/**/*.css"@),
        r matches Ok(assets) ==> forall|i: int|
            0 <= i < assets@.len() ==> #[trigger] pattern_matches("./src/**/*.fxml"@, assets@[i]@)
                || pattern_matches("./src/**/*.css"@, assets@[i]@),
        r matches Err(e) ==> e is InvalidPattern,
{
    match discover("./src/**/*.fxml") {
        Ok(mut markup) => match discover("./src/**/*.css") {
            Ok(mut styles) => {
                let ghost fx = markup@;
                let ghost cs = styles@;
                markup.append(&mut styles);
                proof {
                    assert forall|i: int|
                        0 <= i < markup@.len() implies #[trigger] pattern_matches(
                        "./src/**/*.fxml"@,
                        markup@[i]@,
                    ) || pattern_matches("./src/**/*.css"@, markup@[i]@) by {
                        if i < fx.len() {
                            assert(markup@[i] == fx[i]);
                            assert(pattern_matches("./src/**/*.fxml"@, fx[i]@));
                        } else {
                            assert(markup@[i] == cs[i - fx.len()]);
                            assert(pattern_matches("./src/**/*.css"@, cs[i - fx.len()]@));
                        }
                    }
                }
                Ok(markup)
            },
            Err(e) => Err(e),
        },
        Err(e) => Err(e),
    }
}

/// The destination directory modelled as a map from bare asset name to the
/// source whose contents the destination file holds, after the assets are
/// copied in order: every copy overwrites whatever its name held before.
pub open spec fn spec_sync(
    m: Map<Seq<char>, Seq<char>>,
    assets: Seq<Seq<char>>,
    sep: char,
) -> Map<Seq<char>, Seq<char>>
    decreases assets.len(),
{
    if assets.len() == 0 {
        m
    } else {
        spec_sync(m, assets.drop_last(), sep).insert(
            spec_after_last(assets.last(), sep),
            assets.last(),
        )
    }
}

/// Whether some asset in the list has the bare name `k`.
pub open spec fn spec_names_contain(assets: Seq<Seq<char>>, sep: char, k: Seq<char>) -> bool {
    exists|i: int| 0 <= i < assets.len() && spec_after_last(assets[i], sep) == k
}

/// The source path of the last asset named `k` — the copy that wins.
pub open spec fn spec_last_named(assets: Seq<Seq<char>>, sep: char, k: Seq<char>) -> Seq<char>
    decreases assets.len(),
{
    if assets.len() == 0 {
        k
    } else if spec_after_last(assets.last(), sep) == k {
        assets.last()
    } else {
        spec_last_named(assets.drop_last(), sep, k)
    }
}

/// Copying is last-write-wins: after a synchronization each name that some
/// asset carries holds exactly the contents of the last such asset in copy
/// order, and every other name is untouched.
pub proof fn lemma_sync_lookup(
    m: Map<Seq<char>, Seq<char>>,
    assets: Seq<Seq<char>>,
    sep: char,
    k: Seq<char>,
)
    ensures
        spec_names_contain(assets, sep, k) ==> spec_sync(m, assets, sep).contains_key(k)
            && spec_sync(m, assets, sep)[k] == spec_last_named(assets, sep, k),
        !spec_names_contain(assets, sep, k) ==> (spec_sync(m, assets, sep).contains_key(k)
            <==> m.contains_key(k)) && (m.contains_key(k) ==> spec_sync(m, assets, sep)[k]
            == m[k]),
    decreases assets.len(),
{
    if assets.len() == 0 {
    } else {
        let a0 = assets.drop_last();
        let x = assets.last();
        lemma_sync_lookup(m, a0, sep, k);
        if spec_after_last(x, sep) == k {
            assert(spec_after_last(assets[assets.len() - 1], sep) == k);
            assert(spec_names_contain(assets, sep, k));
        } else {
            if spec_names_contain(assets, sep, k) {
                let i = choose|i: int|
                    0 <= i < assets.len() && spec_after_last(assets[i], sep) == k;
                assert(i < assets.len() - 1);
                assert(a0[i] == assets[i]);
                assert(spec_names_contain(a0, sep, k));
            }
            if spec_names_contain(a0, sep, k) {
                let i = choose|i: int| 0 <= i < a0.len() && spec_after_last(a0[i], sep) == k;
                assert(assets[i] == a0[i]);
                assert(spec_names_contain(assets, sep, k));
            }
        }
    }
}

/// Resource copying is idempotent: synchronizing the same asset list twice,
/// from any starting state, leaves exactly the state of synchronizing it
/// once.
pub proof fn lemma_sync_idempotent(
    m: Map<Seq<char>, Seq<char>>,
    assets: Seq<Seq<char>>,
    sep: char,
)
    ensures
        spec_sync(spec_sync(m, assets, sep), assets, sep) == spec_sync(m, assets, sep),
{
    let one = spec_sync(m, assets, sep);
    let two = spec_sync(one, assets, sep);
    assert forall|k: Seq<char>| #[trigger] two.contains_key(k) implies one.contains_key(k)
        && two[k] == one[k] by {
        lemma_sync_lookup(m, assets, sep, k);
        lemma_sync_lookup(one, assets, sep, k);
    }
    assert forall|k: Seq<char>| #[trigger] one.contains_key(k) implies two.contains_key(k) by {
        lemma_sync_lookup(m, assets, sep, k);
        lemma_sync_lookup(one, assets, sep, k);
    }
    assert(two =~= one);
}

} // verus!
