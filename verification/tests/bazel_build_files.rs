use cargo_runner_core::bazel::BazelTargetKind;
use cargo_runner_core::build_system::bazel as bs;
use cargo_runner_core::command::builder::bazel::target_detection::{
    extract_attribute, extract_rule_blocks, extract_srcs, find_bazel_target_in_build, get_rule_type,
    parse_bazel_targets, select_target_for_file,
};
use cargo_runner_core::strings::{lines, split_whitespace, trim, trim_start};

const CRATE_BUILD: &str = r#"
load("@corex_crates//:defs.bzl", "all_crate_deps")
load("@rules_rust//rust:defs.bzl", "rust_library", "rust_test")

rust_library(
    name = "corex_lib",
    srcs = ["src/lib.rs"],
    deps = all_crate_deps(),
    visibility = ["//visibility:public"],
    crate_name = "corex",
)

rust_test(
    name = "corex_tests",
    crate = ":corex_lib",
    deps = all_crate_deps(normal_dev = True),
)
"#;

const SMALL_BUILD: &str = r#"
rust_library(
    name = "corex_lib",
    srcs = ["src/lib.rs"],
)

rust_test(
    name = "corex_tests",
    crate = ":corex_lib",
)
"#;

#[test]
fn bazel_test_parse_bazel_targets() {
    let targets = bs::parse_bazel_targets(CRATE_BUILD);
    assert_eq!(targets.len(), 2);
    assert_eq!(targets[0].name, "corex_lib");
    assert_eq!(targets[0].kind, bs::BazelTargetKind::RustLibrary);
    assert_eq!(targets[1].name, "corex_tests");
    assert_eq!(targets[1].kind, bs::BazelTargetKind::RustTest);
}

#[test]
fn bazel_test_find_bazel_target_for_file() {
    let targets = bs::parse_bazel_targets(SMALL_BUILD);
    assert_eq!(bs::select_bazel_target("//corex", &targets, true), Some("//corex:corex_tests".to_string()));
    assert_eq!(bs::select_bazel_target("//corex", &targets, false), None);
}

#[test]
fn target_detection_test_parse_bazel_targets() {
    let targets = parse_bazel_targets(CRATE_BUILD);
    assert_eq!(targets.len(), 2);

    assert_eq!(targets[0].name, "corex_lib");
    assert_eq!(targets[0].kind, BazelTargetKind::Library);
    assert_eq!(targets[0].sources, vec!["src/lib.rs"]);

    assert_eq!(targets[1].name, "corex_tests");
    assert_eq!(targets[1].kind, BazelTargetKind::Test);
    assert_eq!(targets[1].crate_ref, Some(":corex_lib".to_string()));
}

#[test]
fn target_detection_test_find_bazel_target_for_file() {
    let target = find_bazel_target_in_build(SMALL_BUILD, "//corex", "src/lib.rs", true);
    assert_eq!(target, Some("//corex:corex_tests".to_string()));
    let target = find_bazel_target_in_build(SMALL_BUILD, "//corex", "src/lib.rs", false);
    assert_eq!(target, None);
}

#[test]
fn rule_blocks_follow_parentheses() {
    let blocks = extract_rule_blocks("x = 1\nrust_binary(\n  name = \"a\",\n  srcs = glob([\"*.rs\"]),\n)\nrust_test(name = 't')\n");
    assert_eq!(blocks.len(), 2);
    assert_eq!(blocks[0], "rust_binary(\n  name = \"a\",\n  srcs = glob([\"*.rs\"]),\n)\n");
    assert_eq!(blocks[1], "rust_test(name = 't')\n");
    assert_eq!(get_rule_type(&blocks[0]), Some(BazelTargetKind::Binary));
    assert_eq!(extract_attribute(&blocks[1], "name"), Some("t".to_string()));
    assert_eq!(extract_attribute("rust_test(\n name = 't',\n)", "name"), Some("t".to_string()));
    assert_eq!(extract_attribute("rust_test(crate = :lib, x)", "crate"), Some(":lib".to_string()));
    assert_eq!(extract_attribute("rust_test(crate = :lib", "crate"), Some(":lib".to_string()));
    assert_eq!(extract_srcs("rust_library(srcs = [\"a.rs\", \"b/c.rs\"])"), vec!["a.rs", "b/c.rs"]);
    assert!(extract_srcs("rust_library(srcs = glob([\"*.rs\"]))").is_empty());
}

#[test]
fn the_test_of_the_library_listing_the_file_is_preferred() {
    let build = "rust_library(\n name = \"other\",\n srcs = [\"x.rs\"],\n)\nrust_test(\n name = \"first_test\",\n)\nrust_library(\n name = \"lib\",\n srcs = [\"src/lib.rs\"],\n)\nrust_test(\n name = \"lib_test\",\n crate = \"lib\",\n)\nrust_binary(\n name = \"app\",\n)\n";
    let targets = parse_bazel_targets(build);
    assert_eq!(select_target_for_file("//", &targets, "src/lib.rs", true), Some(":lib_test".to_string()));
    assert_eq!(select_target_for_file("//", &targets, "x.rs", true), Some(":first_test".to_string()));
    assert_eq!(select_target_for_file("//pkg", &targets, "x.rs", false), Some("//pkg:app".to_string()));
}

#[test]
fn text_primitives_match_std() {
    let samples = ["", "a", "a\n", "a\r\nb", "a\rb\n\n", " \t x y \n", "\r", "línea\r\n\u{2003}z\u{2003}"];
    for s in samples {
        let ours: Vec<String> = lines(s);
        let std_lines: Vec<String> = s.lines().map(String::from).collect();
        assert_eq!(ours, std_lines, "lines of {s:?}");
        assert_eq!(trim(s), s.trim(), "trim of {s:?}");
        assert_eq!(trim_start(s), s.trim_start(), "trim_start of {s:?}");
        let words: Vec<String> = s.split_whitespace().map(String::from).collect();
        assert_eq!(split_whitespace(s), words, "words of {s:?}");
    }
}

fn markers(build_bazel: bool, module_bazel: bool, cargo_toml: bool) -> bs::BazelMarkers {
    bs::BazelMarkers {
        has_build_bazel: build_bazel,
        has_build: false,
        has_module_bazel: module_bazel,
        has_workspace: false,
        has_workspace_bazel: false,
        has_cargo_toml: cargo_toml,
    }
}

#[test]
fn bazel_workspace_root_needs_bazel_files_and_no_manifest() {
    assert!(bs::is_bazel_project(&markers(true, false, false)));
    assert!(bs::is_bazel_project(&markers(false, true, true)));
    assert!(!bs::is_bazel_project(&markers(false, false, true)));

    assert_eq!(
        bs::find_bazel_workspace_root("/ws", false, &markers(false, true, false)),
        Some("/ws".to_string())
    );
    assert_eq!(bs::find_bazel_workspace_root("/ws", false, &markers(false, true, true)), None);
    assert_eq!(bs::find_bazel_workspace_root("/ws/main.rs", true, &markers(true, true, false)), None);
    assert_eq!(bs::find_bazel_workspace_root("/ws", false, &markers(false, false, false)), None);
}

#[test]
fn bazel_package_path_is_the_file_directory_below_the_root() {
    assert_eq!(bs::get_bazel_package_path("/ws/corex/src/lib.rs", "/ws"), Some("//corex/src".to_string()));
    assert_eq!(bs::get_bazel_package_path("/ws/lib.rs", "/ws"), Some("//".to_string()));
    assert_eq!(bs::get_bazel_package_path("/other/a.rs", "/ws"), None);
    assert_eq!(bs::get_bazel_package_path("/", "/"), None);
}
