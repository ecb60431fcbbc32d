use cargo_runner_core::bazel::target_finder::BazelTargetFinder;
use cargo_runner_core::bazel::{BazelTarget, BazelTargetKind};
use cargo_runner_core::command::builder::bazel::target_detection::parse_bazel_targets;

fn target(name: &str, kind: BazelTargetKind, sources: &[&str], crate_ref: Option<&str>) -> BazelTarget {
    BazelTarget {
        name: name.to_string(),
        label: format!("//pkg:{name}"),
        kind,
        sources: sources.iter().map(|s| s.to_string()).collect(),
        crate_ref: crate_ref.map(String::from),
    }
}

#[test]
fn test_find_targets_in_build_file() {
    let content = r#"
load("@rules_rust//rust:defs.bzl", "rust_library", "rust_test")

rust_library(
    name = "mylib",
    srcs = ["src/lib.rs"],
)

rust_test(
    name = "mylib_test",
    crate = ":mylib",
)
"#;
    let finder = BazelTargetFinder::new().unwrap();
    let targets = finder.with_package_labels(parse_bazel_targets(content), "//");
    assert_eq!(targets.len(), 2);
    assert_eq!(targets[0].name, "mylib");
    assert_eq!(targets[0].kind, BazelTargetKind::Library);
    assert_eq!(targets[1].name, "mylib_test");
    assert_eq!(targets[1].kind, BazelTargetKind::Test);
    assert_eq!(targets[1].label, "//:mylib_test");
}

#[test]
fn glob_pattern_cases() {
    let f = BazelTargetFinder::new().unwrap();
    assert!(f.matches_glob_pattern("tests/a/b.rs", "tests/**"));
    assert!(!f.matches_glob_pattern("src/a.rs", "tests/**"));
    assert!(f.matches_glob_pattern("a/b/c.rs", "**/*.rs"));
    assert!(f.matches_glob_pattern("c.rs", "*.rs"));
    assert!(!f.matches_glob_pattern("a/c.rs", "*.rs"));
    assert!(f.matches_glob_pattern("src/x.txt", "src/*.txt"));
    assert!(f.matches_glob_pattern("src/deep/x.rs", "src/**"));
    assert!(!f.matches_glob_pattern("srcx/y.rs", "src/**"));
    assert!(!f.matches_glob_pattern("src/deep/x.txt", "src/**/*.txt"));
    assert!(!f.matches_glob_pattern("a.rs", "a.rs"));
}

#[test]
fn targets_for_a_file_include_those_referring_to_its_library() {
    let f = BazelTargetFinder::new().unwrap();
    let all = vec![
        target("lib", BazelTargetKind::Library, &["src/*.rs"], None),
        target("bin", BazelTargetKind::Binary, &["src/main.rs"], None),
        target("lib_test", BazelTargetKind::Test, &[], Some(":lib")),
        target("docs", BazelTargetKind::DocTest, &[], Some("lib")),
        target("other", BazelTargetKind::Test, &["tests/x.rs"], None),
    ];
    let found = f.targets_for_file(&all, "src/lib.rs");
    let names: Vec<&str> = found.iter().map(|t| t.name.as_str()).collect();
    assert_eq!(names, vec!["lib", "lib_test", "docs"]);

    let run = f.runnable_target(found, &all, Some(BazelTargetKind::Test)).unwrap();
    assert_eq!(run.name, "lib_test");

    let found = f.targets_for_file(&all, "src/lib.rs");
    let doc = f.doc_test_target(&found, &all).unwrap();
    assert_eq!(doc.name, "docs");

    let found = f.targets_for_file(&all, "src/lib.rs");
    let any = f.runnable_target(found, &all, None).unwrap();
    assert_eq!(any.name, "lib_test");

    let found = f.targets_for_file(&all, "src/main.rs");
    let names: Vec<&str> = found.iter().map(|t| t.name.as_str()).collect();
    assert_eq!(names, vec!["lib", "bin", "lib_test", "docs"]);
}

#[test]
fn most_specific_and_integration_targets() {
    let f = BazelTargetFinder::new().unwrap();
    let ts = vec![
        target("b", BazelTargetKind::Binary, &[], None),
        target("bench", BazelTargetKind::Benchmark, &[], None),
        target("suite", BazelTargetKind::TestSuite, &["tests/**"], None),
    ];
    assert_eq!(f.find_most_specific_target(ts).unwrap().name, "suite");
    assert!(f.find_most_specific_target(vec![]).is_none());
    let only_lib = vec![target("l", BazelTargetKind::Library, &[], None)];
    assert_eq!(f.find_most_specific_target(only_lib).unwrap().name, "l");

    let ts = vec![target("suite", BazelTargetKind::TestSuite, &["tests/**"], None)];
    assert_eq!(f.integration_test_target("server/tests/it.rs", &ts).unwrap().name, "suite");
    assert!(f.integration_test_target("server/src/it.rs", &ts).is_none());
}

#[test]
fn test_glob_applies_and_decidable_includes() {
    let finder = BazelTargetFinder::new().unwrap();
    assert!(finder.glob_applies("src/main.rs", "src/*.rs"));
    assert!(finder.glob_applies("anything", "tests/**"));
    // `a./` and `./b` overlap in `a./b`: the pattern cannot be cut out of it
    assert!(!finder.glob_applies("a./b", "a./*./b"));

    let overlapping = target("lib", BazelTargetKind::Library, &["a./*./b"], None);
    assert!(!finder.includes_decidable(&overlapping, "a./b"));
    let named = target("lib", BazelTargetKind::Library, &["a./b", "a./*./b"], None);
    assert!(finder.includes_decidable(&named, "a./b"));
    let globbed = target("lib", BazelTargetKind::Library, &["src/*.rs"], None);
    assert!(finder.includes_decidable(&globbed, "src/x.rs"));
    assert!(finder.target_includes_file(&globbed, "src/x.rs"));
}

#[test]
fn glob_patterns_with_a_repeated_separator_take_no_split_case() {
    let finder = BazelTargetFinder::new().unwrap();
    // `/*.` occurs twice: the pattern splits into three parts, so the
    // `dir/*.ext` case does not apply and nothing else matches
    assert!(!finder.matches_glob_pattern("src/x.rs", "src/*.rs/*.rs"));
    // `/**/` occurs twice: likewise not the `dir/**/*.rs` case
    assert!(!finder.matches_glob_pattern("a/b/x.rs", "a/**/b/**/*.rs"));
    assert!(finder.matches_glob_pattern("a/b/x.rs", "a/**/*.rs"));
}
