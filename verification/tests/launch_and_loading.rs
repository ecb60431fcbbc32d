use cargo_runner_core::build_system::PathFacts;
use cargo_runner_core::command::command::Command;
use cargo_runner_core::command::{CargoCommand, CommandType};
use cargo_runner_core::config::v2::builder::{ConfigBuilder, LayerConfigExt};
use cargo_runner_core::config::v2::json::{JsonConfig, JsonFrameworks, JsonLayerConfig};
use cargo_runner_core::config::v2::scope::Scope;
use cargo_runner_core::config::v2::loader::{ConfigWalk, WalkStep};
use cargo_runner_core::build_system::BuildSystem;

fn strings(v: &[&str]) -> Vec<String> {
    v.iter().map(|s| s.to_string()).collect()
}

#[test]
fn rustc_launch_compiles_then_runs_the_output() {
    let mut cmd = Command::rustc(strings(&["--test", "a.rs", "-o", "a_test"]));
    cmd.test_filter = Some("mod::it".into());
    cmd.exec_args = Some(strings(&["{test_name}", "--nocapture"]));
    cmd.test_binary_args = Some(strings(&["--ignored"]));
    cmd.compiler_prefix = Some(strings(&["rustup", "run", "nightly"]));
    let plan = cmd.launch_plan();
    assert_eq!(plan.first.program, "rustup");
    assert_eq!(plan.first.args, strings(&["run", "nightly", "rustc", "--test", "a.rs", "-o", "a_test"]));
    let after = plan.after.unwrap();
    assert_eq!(after.program, "./a_test");
    assert_eq!(after.args, strings(&["--nocapture", "mod::it", "--ignored"]));

    cmd.pipe_command = Some("tee log.txt".into());
    cmd.test_filter = Some("a b".into());
    let piped = cmd.launch_plan().after.unwrap();
    assert_eq!(piped.program, "sh");
    assert_eq!(piped.args, strings(&["-c", "./a_test --nocapture 'a b' --ignored | tee log.txt"]));
}

#[test]
fn other_strategies_launch_one_process() {
    let plan = Command::cargo(strings(&["test"])).launch_plan();
    assert_eq!(plan.first.program, "cargo");
    assert!(plan.after.is_none());
    let plan = Command::shell("dx", strings(&["serve"])).launch_plan();
    assert_eq!(plan.first.program, "dx");
    let no_output = Command::rustc(strings(&["a.rs"])).launch_plan();
    assert_eq!(no_output.first.program, "rustc");
    assert!(no_output.after.is_none());
}

#[test]
fn cargo_command_launches() {
    let mut c = CargoCommand::new_rustc(strings(&["--test", "x.rs", "-o", "x"]));
    c.test_filter = Some("t".into());
    let plan = c.launch_plan().unwrap();
    assert_eq!(plan.first.program, "rustc");
    let after = plan.after.unwrap();
    assert_eq!(after.program, "./x");
    assert_eq!(after.args, strings(&["t"]));

    let shell = CargoCommand::new_shell("trunk".into(), strings(&["serve"])).launch_plan().unwrap();
    assert_eq!(shell.first.program, "trunk");
    assert_eq!(shell.first.args, strings(&["serve"]));

    let mut empty = CargoCommand::new(vec![]);
    empty.command_type = CommandType::Shell;
    assert!(empty.launch_plan().is_none());
}

fn facts() -> PathFacts {
    PathFacts {
        has_build_bazel: false,
        has_build: false,
        has_cargo_toml: true,
        is_rust_file: false,
        ancestor_has_cargo_toml: false,
    }
}

fn layer_config(args: &str) -> cargo_runner_core::config::v2::Config {
    ConfigBuilder::new()
        .workspace(|w| {
            w.build_system(BuildSystem::Cargo).args_test(vec![args.to_string()]);
        })
        .build()
}

#[test]
fn the_walk_stops_at_the_project_root_and_merges_in_order() {
    let mut walk = ConfigWalk::new(Some("/ws".into()), Some("/home/me".into()), None);
    assert_eq!(walk.visit("/ws/crate/src", None), WalkStep::Parent);
    assert_eq!(walk.visit("/ws/crate", Some(layer_config("--a"))), WalkStep::Parent);
    assert_eq!(walk.visit("/ws/", Some(layer_config("--b"))), WalkStep::Stop);
    let merged = walk.finish(&facts());
    assert_eq!(merged.layers_count(), 2);
}

#[test]
fn the_walk_stops_where_linked_projects_are_named() {
    let mut linked = layer_config("--x");
    linked.linked_projects = Some(vec!["a/Cargo.toml".into()]);
    let mut walk = ConfigWalk::new(None, Some("/home/me".into()), None);
    assert_eq!(walk.visit("/w/a", None), WalkStep::Parent);
    assert_eq!(walk.visit("/w", Some(linked)), WalkStep::Stop);
    let mut walk = ConfigWalk::new(None, Some("/home/me".into()), None);
    assert_eq!(walk.visit("/home/me", None), WalkStep::Stop);
    let defaults = walk.finish(&facts());
    assert_eq!(defaults.layers_count(), 1);
}

#[test]
fn test_empty_json_config() {
    let json_config = JsonConfig {
        version: None,
        linked_projects: None,
        build_system: None,
        frameworks: None,
        args: None,
        env: vec![],
        workspace: None,
        crates: vec![],
        files: vec![],
        modules: vec![],
        functions: vec![],
    };
    let config = json_config.to_config();
    assert_eq!(config.layers_count(), 0);
}

/// The walk from a directory of the file system's root, with no project
/// root set: each directory up to `/` is looked at.
fn walk_from_temp_dir(found: Option<cargo_runner_core::config::v2::Config>) -> ConfigWalk {
    let mut walk = ConfigWalk::new(None, Some("/home/me".into()), None);
    assert_eq!(walk.visit("/tmp/project", found), WalkStep::Parent);
    assert_eq!(walk.visit("/tmp", None), WalkStep::Parent);
    assert_eq!(walk.visit("/", None), WalkStep::Parent);
    walk
}

#[test]
fn test_load_v2_config() {
    let json_config = JsonConfig {
        version: None,
        linked_projects: None,
        build_system: None,
        frameworks: None,
        args: None,
        env: vec![],
        workspace: Some(JsonLayerConfig {
            build_system: Some(BuildSystem::Cargo),
            frameworks: Some(JsonFrameworks {
                test: Some("cargo-test".to_string()),
                binary: None,
                benchmark: None,
                doctest: None,
                build: None,
            }),
            args: None,
            env: vec![],
        }),
        crates: vec![],
        files: vec![],
        modules: vec![],
        functions: vec![],
    };
    let walk = walk_from_temp_dir(Some(json_config.to_config()));
    let empty_dir = PathFacts {
        has_build_bazel: false,
        has_build: false,
        has_cargo_toml: false,
        is_rust_file: false,
        ancestor_has_cargo_toml: false,
    };
    let config = walk.finish(&empty_dir);
    // the workspace layer
    assert_eq!(config.layers_count(), 1);
}

#[test]
fn test_empty_config() {
    let walk = walk_from_temp_dir(None);
    let empty_dir = PathFacts {
        has_build_bazel: false,
        has_build: false,
        has_cargo_toml: false,
        is_rust_file: false,
        ancestor_has_cargo_toml: false,
    };
    let config = walk.finish(&empty_dir);
    // the default configuration, with its workspace layer
    assert_eq!(config.layers_count(), 1);
    assert!(matches!(config.layers()[0].scope, Scope::Workspace));
}
