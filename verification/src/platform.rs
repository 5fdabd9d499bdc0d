use vstd::prelude::*;

verus! {

/// The operating system the orchestrator runs on. Path and path-list
/// separators, and the fixed library locations, depend on it; nothing else
/// does. Passing it in explicitly keeps every composed string a pure
/// function of the inputs.
#[derive(Clone, Copy, PartialEq, Eq, Structural, Debug)]
pub enum Platform {
    Windows,
    Unix,
}

/// The separator between the components of a single file path.
pub open spec fn spec_path_sep(p: Platform) -> char {
    match p {
        Platform::Windows => '\\',
        Platform::Unix => '/',
    }
}

/// The separator between the entries of a path list (classpath).
pub open spec fn spec_list_sep(p: Platform) -> char {
    match p {
        Platform::Windows => ';',
        Platform::Unix => ':',
    }
}

pub fn path_separator(p: &Platform) -> (c: char)
    ensures
        c == spec_path_sep(*p),
{
    match p {
        Platform::Windows => '\\',
        Platform::Unix => '/',
    }
}

pub fn list_separator(p: &Platform) -> (c: char)
    ensures
        c == spec_list_sep(*p),
{
    match p {
        Platform::Windows => ';',
        Platform::Unix => ':',
    }
}

} // verus!
