use cargo_runner_core::command::target::Target;
use cargo_runner_core::config::v2::target_detection::{build_test_path, detect_target_from_path, is_benchmark_file, is_example_file, TargetType};
use cargo_runner_core::config::v2::target_selection_v2::command;
use cargo_runner_core::config::v2::target_selection_v2::smart;
use cargo_runner_core::config::v2::target_selection_v2::TargetSelector;

#[test]
fn test_detect_benchmark() {
    let result = detect_target_from_path("benches/my_bench.rs", None);
    println!("Result for 'benches/my_bench.rs': {:?}", result);
    assert_eq!(result, TargetType::Bench("my_bench".to_string()));

    assert_eq!(detect_target_from_path("crate/benches/perf.rs", None), TargetType::Bench("perf".to_string()));
}

#[test]
fn test_detect_example() {
    assert_eq!(detect_target_from_path("examples/demo.rs", None), TargetType::Example("demo".to_string()));
}

#[test]
fn test_detect_bin() {
    assert_eq!(detect_target_from_path("src/main.rs", Some("myapp")), TargetType::Bin("myapp".to_string()));
    assert_eq!(detect_target_from_path("src/bin/tool.rs", None), TargetType::Bin("tool".to_string()));
}

#[test]
fn test_detect_lib() {
    assert_eq!(detect_target_from_path("src/lib.rs", None), TargetType::Lib);
}

#[test]
fn test_build_test_path() {
    assert_eq!(build_test_path(Some("tests"), "my_test"), "tests::my_test");
    assert_eq!(build_test_path(None, "my_test"), "my_test");
    assert_eq!(build_test_path(Some(""), "my_test"), "my_test");
}

#[test]
fn detection_edge_cases() {
    // `src/main.rs` without a package names no binary.
    assert_eq!(detect_target_from_path("src/main.rs", None), TargetType::NoTarget);
    assert_eq!(detect_target_from_path("src/util.rs", None), TargetType::NoTarget);
    assert!(is_benchmark_file("benches\\b.rs"));
    assert!(!is_benchmark_file("src/benchmarks.rs"));
    assert!(is_example_file("a/examples/x.rs"));
    let mut args = vec!["run".to_string()];
    TargetType::Example("demo".into()).add_to_args(&mut args);
    TargetType::NoTarget.add_to_args(&mut args);
    TargetType::Lib.add_to_args(&mut args);
    assert_eq!(args, vec!["run", "--example", "demo", "--lib"]);
}

#[test]
fn test_run_target_selection() {
    let selector = TargetSelector::<command::Run>::new().bin("myapp");
    assert_eq!(selector.build(), vec!["--bin", "myapp"]);

    let selector = TargetSelector::<command::Run>::new().example("demo");
    assert_eq!(selector.build(), vec!["--example", "demo"]);
}

#[test]
fn test_test_target_selection() {
    let selector = TargetSelector::<command::Test>::new().lib();
    assert_eq!(selector.build(), vec!["--lib"]);

    let selector = TargetSelector::<command::Test>::new().bin("app");
    assert_eq!(selector.build(), vec!["--bin", "app"]);

    let selector = TargetSelector::<command::Test>::new().doc();
    assert_eq!(selector.build(), vec!["--doc"]);
}

#[test]
fn test_smart_constructors() {
    assert_eq!(smart::args_for_run("src/main.rs", Some("myapp")), vec!["--bin", "myapp"]);
    assert_eq!(smart::args_for_run("examples/demo.rs", None), vec!["--example", "demo"]);
    assert_eq!(smart::args_for_run("src/lib.rs", None), Vec::<String>::new());

    assert_eq!(smart::args_for_test("src/lib.rs", None), vec!["--lib"]);
    assert_eq!(smart::args_for_test("src/bin/app.rs", Some("app")), vec!["--bin", "app"]);
    assert_eq!(smart::args_for_test("examples/ex.rs", None), vec!["--example", "ex"]);
    assert_eq!(smart::args_for_test("benches/bench.rs", None), vec!["--bench", "bench"]);
}

#[test]
fn other_subcommands_select_targets() {
    assert_eq!(smart::args_for_bench("benches/b.rs", None), vec!["--bench", "b"]);
    assert_eq!(smart::args_for_build("src/lib.rs", None), vec!["--lib"]);
    assert_eq!(smart::args_for_build("src/other.rs", None), Vec::<String>::new());
    let sel = TargetSelector::<command::Build>::new().test("integration");
    assert_eq!(sel.args(), &["--test".to_string(), "integration".to_string()]);
    assert_eq!(TargetSelector::<command::Bench>::new().example("e").build(), vec!["--example", "e"]);
}

#[test]
fn cargo_layout_targets() {
    assert_eq!(Target::from_file_path("/project/src/lib.rs"), Some(Target::Lib));
    assert_eq!(Target::from_file_path("/project/src/main.rs"), Some(Target::Bin("main".into())));
    assert_eq!(Target::from_file_path("/project/src/bin/tool.rs"), Some(Target::Bin("tool".into())));
    assert_eq!(Target::from_file_path("/project/src/bin/tool/main.rs"), Some(Target::Bin("tool".into())));
    assert_eq!(Target::from_file_path("tests/api.rs"), Some(Target::Test("api".into())));
    assert_eq!(Target::from_file_path("benches/speed.rs"), Some(Target::Bench("speed".into())));
    assert_eq!(Target::from_file_path("examples/demo.rs"), Some(Target::Example("demo".into())));
    assert_eq!(Target::from_file_path("/project/src/user.rs"), None);
    assert_eq!(Target::from_file_path("lib.rs"), None);
}
