use vstd::prelude::*;
use crate::errors::ConfigError;

verus! {

/// Whether the file-pattern matcher accepts `p`: the success of the
/// validation that `glob::glob` performs — it parses the whole pattern and
/// each of its path components — before it touches the filesystem. A
/// function of the pattern alone.
pub uninterp spec fn pattern_ok(p: Seq<char>) -> bool;

/// Whether the path `path` matches the file pattern `p`, as the glob crate's
/// matcher decides it: a function of the two strings alone.
pub uninterp spec fn pattern_matches(p: Seq<char>, path: Seq<char>) -> bool;

#[verifier::external_type_specification]
pub struct ExPatternError(glob::PatternError);

/// Relies on glob::glob: whether it returns `Err` is decided by validating
/// the pattern text alone, before any filesystem access; on success it
/// yields only paths that match the pattern, read from the filesystem, and
/// which paths exist cannot be promised.
#[verifier::external_body]
pub(crate) fn glob_paths(pattern: &str) -> (r: Result<Vec<String>, glob::PatternError>)
    ensures
        r is Ok <==> pattern_ok(pattern@),
        r matches Ok(files) ==> forall|i: int|
            0 <= i < files@.len() ==> #[trigger] pattern_matches(pattern@, files@[i]@),
{
    match glob::glob(pattern) {
        Ok(entries) => Ok(
            entries.filter_map(|e| e.ok()).map(|p| p.to_string_lossy().into_owned()).collect(),
        ),
        Err(e) => Err(e),
    }
}

/// Relies on std::path::Path::exists: whether a filesystem entity stands at
/// the path right now; nothing can be promised of the answer.
#[verifier::external_body]
pub(crate) fn path_exists(p: &str) -> bool {
    std::path::Path::new(p).exists()
}

/// Every path matching `pattern`, in the matcher's own order, or the
/// configuration error for a pattern the matcher rejects — decided by the
/// pattern alone, before any filesystem access.
pub fn discover(pattern: &str) -> (r: Result<Vec<String>, ConfigError>)
    ensures
        r is Ok <==> pattern_ok(pattern@),
        r matches Ok(files) ==> forall|i: int|
            0 <= i < files@.len() ==> #[trigger] pattern_matches(pattern@, files@[i]@),
        r matches Err(e) ==> e is InvalidPattern,
{
    match glob_paths(pattern) {
        Ok(files) => Ok(files),
        Err(e) => Err(
            ConfigError::InvalidPattern { position: e.pos, message: String::from_str(e.msg) },
        ),
    }
}

} // verus!
