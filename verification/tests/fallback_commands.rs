use cargo_runner_core::build_system::BuildSystem;
use cargo_runner_core::command::fallback::{create_synthetic_runnable, generate_fallback_command, FallbackFacts};
use cargo_runner_core::command::CargoCommand;
use cargo_runner_core::config::v2::builder::{ConfigBuilder, LayerConfigExt};
use cargo_runner_core::config::v2::resolver::FileFacts;
use cargo_runner_core::error::Error;
use cargo_runner_core::types::{FileType, RunnableKind};

fn no_facts() -> FallbackFacts {
    FallbackFacts {
        content: None,
        project_root: None,
        manifest: None,
        file: FileFacts { file_type: FileType::CargoProject, working_dir: None, temp_dir: None, build_targets: None },
    }
}

fn generate_fallback_command_with_v2(
    file_path: &str,
    package_name: Option<&str>,
    project_root: Option<&str>,
) -> Result<Option<CargoCommand>, Error> {
    let config = ConfigBuilder::new()
        .workspace(|w| {
            w.build_system(BuildSystem::Cargo)
                .framework_test("cargo-test")
                .framework_binary("cargo-run")
                .framework_benchmark("cargo-bench")
                .framework_doctest("cargo-test")
                .framework_build("cargo-build");
        })
        .build();
    generate_fallback_command(file_path, package_name, project_root, &config, no_facts())
}

fn has(cmd: &CargoCommand, a: &str) -> bool {
    cmd.args.contains(&a.to_string())
}

#[test]
fn test_binary_fallback() {
    let cmd = generate_fallback_command_with_v2("/project/src/bin/my_tool.rs", Some("my_crate"), Some("/project"))
        .unwrap()
        .unwrap();
    assert!(has(&cmd, "run"));
    assert!(has(&cmd, "-p") || has(&cmd, "--package"));
    assert!(has(&cmd, "my_crate"));
    assert!(has(&cmd, "--bin"));
    assert!(has(&cmd, "my_tool"));
}

#[test]
fn test_main_binary_fallback() {
    let cmd = generate_fallback_command_with_v2("/project/src/main.rs", Some("my_crate"), Some("/project"))
        .unwrap()
        .unwrap();
    assert!(has(&cmd, "run"));
    assert!(has(&cmd, "-p") || has(&cmd, "--package"));
    assert!(has(&cmd, "my_crate"));
}

#[test]
fn test_lib_fallback() {
    let cmd = generate_fallback_command_with_v2("/project/src/lib.rs", Some("my_crate"), Some("/project"))
        .unwrap()
        .unwrap();
    assert!(has(&cmd, "test"));
    assert!(has(&cmd, "-p") || has(&cmd, "--package"));
    assert!(has(&cmd, "my_crate"));
}

#[test]
fn test_example_fallback() {
    let cmd = generate_fallback_command_with_v2("/project/examples/demo.rs", Some("my_crate"), Some("/project"))
        .unwrap()
        .unwrap();
    assert!(has(&cmd, "run"));
    assert!(has(&cmd, "-p") || has(&cmd, "--package"));
    assert!(has(&cmd, "my_crate"));
    assert!(has(&cmd, "--example") || has(&cmd, "demo"));
}

#[test]
fn test_integration_test_fallback() {
    let cmd = generate_fallback_command_with_v2("/project/tests/integration.rs", Some("my_crate"), Some("/project"))
        .unwrap()
        .unwrap();
    assert!(has(&cmd, "test"));
    assert!(has(&cmd, "-p") || has(&cmd, "--package"));
    assert!(has(&cmd, "my_crate"));
}

#[test]
fn test_bench_fallback() {
    let cmd = generate_fallback_command_with_v2("/project/benches/performance.rs", Some("my_crate"), Some("/project"))
        .unwrap()
        .unwrap();
    assert!(has(&cmd, "bench"));
    assert!(has(&cmd, "-p") || has(&cmd, "--package"));
    assert!(has(&cmd, "my_crate"));
    assert!(has(&cmd, "--bench") || has(&cmd, "performance"));
}

#[test]
fn test_build_script_fallback() {
    let cmd = generate_fallback_command_with_v2("/project/build.rs", Some("my_crate"), Some("/project"));
    assert!(cmd.unwrap().is_none());
}

#[test]
fn test_no_pattern_match() {
    let cmd = generate_fallback_command_with_v2("/project/random.rs", Some("my_crate"), Some("/project")).unwrap();
    assert!(cmd.is_none());
}

#[test]
fn synthetic_runnables_follow_the_layout() {
    let facts = no_facts();
    let bin = create_synthetic_runnable("/p/src/bin/tool.rs", Some("pkg"), &facts).unwrap().unwrap();
    assert!(matches!(bin.kind, RunnableKind::Binary { bin_name: Some(ref n) } if n == "tool"));
    let main = create_synthetic_runnable("/p/src/main.rs", Some("pkg"), &facts).unwrap().unwrap();
    assert!(matches!(main.kind, RunnableKind::Binary { bin_name: None }));
    let bench = create_synthetic_runnable("/p/benches/speed.rs", None, &facts).unwrap().unwrap();
    assert!(matches!(bench.kind, RunnableKind::Benchmark { ref bench_name } if bench_name == "speed"));
    let modrs = create_synthetic_runnable("/p/tests/common/mod.rs", None, &facts).unwrap();
    assert!(modrs.is_none() || !matches!(modrs.unwrap().kind, RunnableKind::Test { .. }));
}

#[test]
fn cargo_scripts_are_recognised_by_their_first_line() {
    let mut facts = no_facts();
    facts.content = Some("#!/usr/bin/env -S cargo +nightly -Zscript\nfn main() {}\n".to_string());
    let r = create_synthetic_runnable("/tmp/script.rs", None, &facts).unwrap().unwrap();
    assert!(matches!(r.kind, RunnableKind::SingleFileScript { .. }));
    assert_eq!(r.label, "Run cargo script");
}
