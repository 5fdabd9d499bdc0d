use maker::paths::{format_classname, format_filename, get_classpath, get_lib_path};
use maker::platform::{list_separator, path_separator, Platform};
use maker::sources::{
    combine_sources, declaration_files, resolve_doc_sources, resolve_full_sources,
    resolve_single_sources, resolve_test_sources, single_source_paths,
};
use maker::discovery::discover;
use maker::errors::ConfigError;
use maker::sync::{asset_destination, copy_plan};
use maker::text::{after_last, has_prefix, replace_all};

const UNIX_CLASSPATH: &str = "class:lib/mysql-connector-java-8.0.29.jar:lib/annotations-20.1.0.jar:lib/junit-4.13.2.jar:lib/hamcrest-core-1.3.jar";
const WINDOWS_CLASSPATH: &str = "class;lib\\mysql-connector-java-8.0.29.jar;lib\\annotations-20.1.0.jar;lib\\junit-4.13.2.jar;lib\\hamcrest-core-1.3.jar";

#[test]
fn replace_all_rewrites_every_occurrence() {
    assert_eq!(replace_all("a.b.c", ".", "/"), "a/b/c");
    assert_eq!(replace_all("src/src/x", "src/", ""), "x");
    assert_eq!(replace_all("no match", "zz", "y"), "no match");
    assert_eq!(replace_all("", ".", "/"), "");
}

#[test]
fn after_last_takes_the_final_segment() {
    assert_eq!(after_last("vue.Login", '.'), "Login");
    assert_eq!(after_last("plain", '.'), "plain");
    assert_eq!(after_last("a/b/c.ext", '/'), "c.ext");
    assert_eq!(after_last("trailing/", '/'), "");
}

#[test]
fn has_prefix_checks_the_head() {
    assert!(has_prefix("vue.Login", "vue."));
    assert!(!has_prefix("controleur.Main", "vue."));
    assert!(!has_prefix("vu", "vue."));
}

#[test]
fn format_filename_derives_the_source_path() {
    assert_eq!(format_filename(&"pkg.ClassName".to_string()), "src/pkg/ClassName.java");
    assert_eq!(format_filename(&"vue.Login".to_string()), "src/vue/Login.java");
    assert_eq!(format_filename(&"Main".to_string()), "src/Main.java");
    assert_eq!(format_filename(&"".to_string()), "");
}

#[test]
fn format_classname_derives_the_logical_name() {
    assert_eq!(format_classname(&"src/test/AppTest.java".to_string()), "test.AppTest");
    assert_eq!(format_classname(&"src\\test\\AppTest.java".to_string()), "test.AppTest");
    assert_eq!(format_classname(&"src/controleur/Main.java".to_string()), "controleur.Main");
    assert_eq!(format_classname(&"".to_string()), "");
}

#[test]
fn separators_follow_the_platform() {
    assert_eq!(path_separator(&Platform::Unix), '/');
    assert_eq!(path_separator(&Platform::Windows), '\\');
    assert_eq!(list_separator(&Platform::Unix), ':');
    assert_eq!(list_separator(&Platform::Windows), ';');
}

#[test]
fn classpath_uses_the_platform_list_separator() {
    assert_eq!(get_classpath(&Platform::Unix), UNIX_CLASSPATH);
    assert_eq!(get_classpath(&Platform::Windows), WINDOWS_CLASSPATH);
    assert!(get_classpath(&Platform::Unix).contains(':'));
    assert!(!get_classpath(&Platform::Unix).contains(';'));
    assert!(get_classpath(&Platform::Windows).contains(';'));
    assert!(!get_classpath(&Platform::Windows).contains(':'));
}

#[test]
fn classpath_is_identical_across_invocations() {
    assert_eq!(get_classpath(&Platform::Unix), get_classpath(&Platform::Unix));
    assert_eq!(get_classpath(&Platform::Windows), get_classpath(&Platform::Windows));
}

#[test]
fn lib_path_on_windows_is_the_project_directory() {
    let lib = get_lib_path(&Platform::Windows).unwrap();
    assert_eq!(lib, "lib/lib");
}

#[test]
fn lib_path_on_unix_is_the_system_installation_or_an_error() {
    match get_lib_path(&Platform::Unix) {
        Ok(lib) => assert_eq!(lib, "/usr/lib/jvm/openjfx"),
        Err(e) => assert!(matches!(e, ConfigError::RuntimeLibMissing)),
    }
}

#[test]
fn declaration_files_are_the_fixed_nine() {
    let decls = declaration_files();
    assert_eq!(decls.len(), 9);
    assert_eq!(decls[0], "src/modele/donnee/ContenuNid.java");
    assert_eq!(decls[8], "src/modele/donnee/TypeObservation.java");
}

#[test]
fn combine_sources_keeps_order_and_drops_duplicates() {
    let decls = vec!["a".to_string(), "b".to_string()];
    let discovered = vec!["b".to_string(), "c".to_string(), "a".to_string(), "c".to_string()];
    let set = combine_sources(&decls, &discovered);
    assert_eq!(set.files, vec!["a".to_string(), "b".to_string(), "c".to_string()]);
}

#[test]
fn combine_sources_prepends_declarations() {
    let decls = vec!["src/modele/donnee/Sexe.java".to_string()];
    let discovered = vec!["src/vue/Login.java".to_string(), "src/modele/donnee/Sexe.java".to_string()];
    let set = combine_sources(&decls, &discovered);
    assert_eq!(
        set.files,
        vec!["src/modele/donnee/Sexe.java".to_string(), "src/vue/Login.java".to_string()]
    );
}

#[test]
fn single_target_includes_the_companion_controller() {
    let set = single_source_paths(&"vue.Login".to_string(), true, true).unwrap();
    assert_eq!(
        set.files,
        vec!["src/vue/Login.java".to_string(), "src/controleur/LoginController.java".to_string()]
    );
}

#[test]
fn single_target_without_controller_is_one_file() {
    let set = single_source_paths(&"vue.Login".to_string(), true, false).unwrap();
    assert_eq!(set.files, vec!["src/vue/Login.java".to_string()]);
    let other = single_source_paths(&"controleur.Main".to_string(), true, true).unwrap();
    assert_eq!(other.files, vec!["src/controleur/Main.java".to_string()]);
}

#[test]
fn single_target_missing_fails_before_any_process() {
    let err = single_source_paths(&"pkg.ClassName".to_string(), false, false).unwrap_err();
    match err {
        ConfigError::TargetMissing { path } => assert_eq!(path, "src/pkg/ClassName.java"),
        other => panic!("unexpected error: {:?}", other),
    }
}

#[test]
fn resolving_a_missing_single_target_fails() {
    let err = resolve_single_sources(&"pkg.ClassName".to_string()).unwrap_err();
    match err {
        ConfigError::TargetMissing { path } => assert_eq!(path, "src/pkg/ClassName.java"),
        other => panic!("unexpected error: {:?}", other),
    }
}

#[test]
fn resolving_an_empty_tree_finds_nothing() {
    // The crate's own tree holds no compilable sources, so a full resolution
    // returns the empty source set.
    let set = resolve_full_sources().unwrap();
    assert!(set.files.is_empty());
}

#[test]
fn fixed_patterns_always_resolve() {
    // The fixed patterns are valid, so success is owed even over an empty
    // tree; here nothing matches them.
    assert!(resolve_test_sources().unwrap().files.is_empty());
    assert!(resolve_doc_sources().unwrap().files.is_empty());
}

#[test]
fn invalid_pattern_is_a_configuration_error() {
    let err = discover("a[").unwrap_err();
    assert!(matches!(err, ConfigError::InvalidPattern { .. }));
}

#[test]
fn valid_pattern_without_matches_yields_the_empty_list() {
    let files = discover("./no_such_directory/**/*.java").unwrap();
    assert!(files.is_empty());
}

#[test]
fn asset_destination_keeps_only_the_file_name() {
    assert_eq!(
        asset_destination(&"src/vue/pages/view.fxml".to_string(), &Platform::Unix),
        "class/vue/view.fxml"
    );
    assert_eq!(
        asset_destination(&"src\\vue\\view.fxml".to_string(), &Platform::Windows),
        "class\\vue\\view.fxml"
    );
}

#[test]
fn copy_plan_maps_each_asset_in_order() {
    let assets = vec!["src/a/style.css".to_string(), "src/b/view.fxml".to_string()];
    let plan = copy_plan(&assets, &Platform::Unix);
    assert_eq!(plan.len(), 2);
    assert_eq!(plan[0].source, "src/a/style.css");
    assert_eq!(plan[0].dest, "class/vue/style.css");
    assert_eq!(plan[1].source, "src/b/view.fxml");
    assert_eq!(plan[1].dest, "class/vue/view.fxml");
}

#[test]
fn scenario3_asset_name_collision_is_last_write_wins() {
    // Two companion assets named view.ext in different subdirectories: both
    // are planned onto the same destination, and the later copy runs last,
    // so exactly one file remains, holding the contents of the second.
    let assets = vec!["src/a/view.ext".to_string(), "src/b/view.ext".to_string()];
    let plan = copy_plan(&assets, &Platform::Unix);
    assert_eq!(plan[0].dest, plan[1].dest);
    assert_eq!(plan[1].dest, "class/vue/view.ext");
    assert_eq!(plan[1].source, "src/b/view.ext");
}
