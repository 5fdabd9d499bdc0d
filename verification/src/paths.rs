use vstd::prelude::*;
use crate::errors::ConfigError;
use crate::platform::{spec_list_sep, Platform};
use crate::text::{replace_all, spec_replace};
use crate::discovery::path_exists;

verus! {

/// The source file compiled for a dotted qualifier: the qualifier with the
/// namespace separator `.` replaced by `/`, placed under the source root,
/// with the source extension appended. An empty qualifier stays empty.
pub open spec fn spec_format_filename(s: Seq<char>) -> Seq<char> {
    if s.len() == 0 {
        Seq::empty()
    } else {
        "src/"@ + spec_replace(s, "."@, "/"@) + ".java"@
    }
}

pub fn format_filename(file: &String) -> (r: String)
    ensures
        r@ == spec_format_filename(file@),
{
    if file.as_str().is_empty() {
        String::new()
    } else {
        proof {
            reveal_strlit(".");
        }
        let mid = replace_all(file.as_str(), ".", "/");
        let mut r = String::from_str("src/");
        r.append(mid.as_str());
        r.append(".java");
        proof {
            assert(("src/"@ + mid@) + ".java"@ =~= "src/"@ + spec_replace(file@, "."@, "/"@)
                + ".java"@);
        }
        r
    }
}

/// The logical class name derived from a source-file path: the source-root
/// prefix and the source extension are removed and path separators become
/// namespace separators, each by textual replacement.
pub open spec fn spec_format_classname(s: Seq<char>) -> Seq<char> {
    spec_replace(
        spec_replace(
            spec_replace(
                spec_replace(spec_replace(s, "src/"@, Seq::empty()), "src\\"@, Seq::empty()),
                ".java"@,
                Seq::empty(),
            ),
            "/"@,
            "."@,
        ),
        "\\"@,
        "."@,
    )
}

pub fn format_classname(file: &String) -> (r: String)
    ensures
        r@ == spec_format_classname(file@),
{
    proof {
        reveal_strlit("src/");
        reveal_strlit("src\\");
        reveal_strlit(".java");
        reveal_strlit("/");
        reveal_strlit("\\");
        reveal_strlit("");
        assert(""@ =~= Seq::<char>::empty());
    }
    let a = replace_all(file.as_str(), "src/", "");
    let b = replace_all(a.as_str(), "src\\", "");
    let c = replace_all(b.as_str(), ".java", "");
    let d = replace_all(c.as_str(), "/", ".");
    replace_all(d.as_str(), "\\", ".")
}

/// The search path handed to every tool: the output directory first, then
/// the bundled jars, joined with the platform's list separator.
pub open spec fn spec_classpath(p: Platform) -> Seq<char> {
    match p {
        Platform::Windows => "class;lib\\mysql-connector-java-8.0.29.jar;lib\\annotations-20.1.0.jar;lib\\junit-4.13.2.jar;lib\\hamcrest-core-1.3.jar"@,
        Platform::Unix => "class:lib/mysql-connector-java-8.0.29.jar:lib/annotations-20.1.0.jar:lib/junit-4.13.2.jar:lib/hamcrest-core-1.3.jar"@,
    }
}

pub fn get_classpath(platform: &Platform) -> (r: String)
    ensures
        r@ == spec_classpath(*platform),
{
    match platform {
        Platform::Windows => String::from_str(
            "class;lib\\mysql-connector-java-8.0.29.jar;lib\\annotations-20.1.0.jar;lib\\junit-4.13.2.jar;lib\\hamcrest-core-1.3.jar",
        ),
        Platform::Unix => String::from_str(
            "class:lib/mysql-connector-java-8.0.29.jar:lib/annotations-20.1.0.jar:lib/junit-4.13.2.jar:lib/hamcrest-core-1.3.jar",
        ),
    }
}

/// The classpath entries, each already written with the platform's path
/// separator.
pub open spec fn spec_classpath_entries(p: Platform) -> Seq<Seq<char>> {
    match p {
        Platform::Windows => seq![
            "class"@,
            "lib\\mysql-connector-java-8.0.29.jar"@,
            "lib\\annotations-20.1.0.jar"@,
            "lib\\junit-4.13.2.jar"@,
            "lib\\hamcrest-core-1.3.jar"@,
        ],
        Platform::Unix => seq![
            "class"@,
            "lib/mysql-connector-java-8.0.29.jar"@,
            "lib/annotations-20.1.0.jar"@,
            "lib/junit-4.13.2.jar"@,
            "lib/hamcrest-core-1.3.jar"@,
        ],
    }
}

/// The parts joined with `sep` between neighbours.
pub open spec fn spec_join(parts: Seq<Seq<char>>, sep: char) -> Seq<char>
    decreases parts.len(),
{
    if parts.len() == 0 {
        Seq::empty()
    } else if parts.len() == 1 {
        parts[0]
    } else {
        parts[0] + seq![sep] + spec_join(parts.skip(1), sep)
    }
}

/// The classpath string is exactly the fixed entries joined with the
/// platform's list separator; being a function of the platform alone, it is
/// identical across repeated invocations on the same platform.
pub proof fn lemma_classpath_uses_list_separator(p: Platform)
    ensures
        spec_classpath(p) == spec_join(spec_classpath_entries(p), spec_list_sep(p)),
{
    reveal_with_fuel(spec_join, 6);
    match p {
        Platform::Windows => {
            reveal_strlit(
                "class;lib\\mysql-connector-java-8.0.29.jar;lib\\annotations-20.1.0.jar;lib\\junit-4.13.2.jar;lib\\hamcrest-core-1.3.jar",
            );
            reveal_strlit("class");
            reveal_strlit("lib\\mysql-connector-java-8.0.29.jar");
            reveal_strlit("lib\\annotations-20.1.0.jar");
            reveal_strlit("lib\\junit-4.13.2.jar");
            reveal_strlit("lib\\hamcrest-core-1.3.jar");
            assert(spec_classpath(p) =~= spec_join(spec_classpath_entries(p), spec_list_sep(p)));
        },
        Platform::Unix => {
            reveal_strlit(
                "class:lib/mysql-connector-java-8.0.29.jar:lib/annotations-20.1.0.jar:lib/junit-4.13.2.jar:lib/hamcrest-core-1.3.jar",
            );
            reveal_strlit("class");
            reveal_strlit("lib/mysql-connector-java-8.0.29.jar");
            reveal_strlit("lib/annotations-20.1.0.jar");
            reveal_strlit("lib/junit-4.13.2.jar");
            reveal_strlit("lib/hamcrest-core-1.3.jar");
            assert(spec_classpath(p) =~= spec_join(spec_classpath_entries(p), spec_list_sep(p)));
        },
    }
}

/// Where the platform's module libraries live: a fixed directory in the
/// project tree on Windows; the system OpenJFX installation elsewhere, whose
/// absence is a fatal configuration error found before any process spawns.
pub open spec fn spec_lib_path(p: Platform) -> Seq<char> {
    match p {
        Platform::Windows => "lib/lib"@,
        Platform::Unix => "/usr/lib/jvm/openjfx"@,
    }
}

pub fn get_lib_path(platform: &Platform) -> (r: Result<String, ConfigError>)
    ensures
        r matches Ok(p) ==> p@ == spec_lib_path(*platform),
        r matches Err(e) ==> *platform == Platform::Unix && e is RuntimeLibMissing,
        *platform == Platform::Windows ==> r is Ok,
{
    match platform {
        Platform::Windows => Ok(String::from_str("lib/lib")),
        Platform::Unix => {
            if path_exists("/usr/lib/jvm/openjfx") {
                Ok(String::from_str("/usr/lib/jvm/openjfx"))
            } else {
                Err(ConfigError::RuntimeLibMissing)
            }
        },
    }
}

} // verus!
