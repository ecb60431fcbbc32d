use cargo_runner_core::command::builder::CommandBuilder;
use cargo_runner_core::config::merge::ConfigMerger;
use cargo_runner_core::config::override_config::Override;
use cargo_runner_core::config::settings::Config;
use cargo_runner_core::paths::strip_prefix;
use cargo_runner_core::types::{FunctionIdentity, Position, Runnable, RunnableKind, Scope, ScopeKind};

fn env_get<'a>(env: &'a Option<Vec<(String, String)>>, key: &str) -> Option<&'a String> {
    env.as_ref().and_then(|v| v.iter().find(|(k, _)| k == key).map(|(_, v)| v))
}

#[test]
fn test_config_merging() {
    let base = Config {
        command: Some("cargo".to_string()),
        extra_args: Some(vec!["--release".to_string()]),
        env: Some(vec![("RUST_LOG".to_string(), "info".to_string())]),
        ..Default::default()
    };

    let override_config = Config {
        channel: Some("nightly".to_string()),
        extra_args: Some(vec!["--features".to_string(), "foo".to_string()]),
        env: Some(vec![("RUST_BACKTRACE".to_string(), "1".to_string())]),
        ..Default::default()
    };

    let merger = ConfigMerger::new();
    let merged = merger.merge_configs(base, override_config, false);

    assert_eq!(merged.command, Some("cargo".to_string()));
    assert_eq!(merged.channel, Some("nightly".to_string()));
    assert_eq!(
        merged.extra_args,
        Some(vec!["--release".to_string(), "--features".to_string(), "foo".to_string()])
    );
    assert_eq!(env_get(&merged.env, "RUST_LOG"), Some(&"info".to_string()));
    assert_eq!(env_get(&merged.env, "RUST_BACKTRACE"), Some(&"1".to_string()));
}

#[test]
fn test_force_replace() {
    let base = Config {
        extra_args: Some(vec!["--release".to_string()]),
        env: Some(vec![("RUST_LOG".to_string(), "info".to_string())]),
        ..Default::default()
    };

    let override_config = Config {
        extra_args: Some(vec!["--debug".to_string()]),
        env: Some(vec![("RUST_LOG".to_string(), "debug".to_string())]),
        ..Default::default()
    };

    let merger = ConfigMerger::new();
    let merged = merger.merge_configs(base, override_config, true);

    assert_eq!(merged.extra_args, Some(vec!["--debug".to_string()]));
    assert_eq!(env_get(&merged.env, "RUST_LOG"), Some(&"debug".to_string()));
}

fn identity(function: &str) -> FunctionIdentity {
    FunctionIdentity {
        package: Some("my_crate".to_string()),
        mod_path: Some("my_crate::tests".to_string()),
        file_path: None,
        function_name: Some(function.to_string()),
    }
}

#[test]
fn test_get_override_for() {
    let config = Config {
        overrides: vec![Override {
            identity: identity("test_foo"),
            extra_args: Some(vec!["--nocapture".to_string()]),
            ..Default::default()
        }],
        ..Default::default()
    };

    let override_config = config.get_override_for(&identity("test_foo"));
    assert!(override_config.is_some());
    assert_eq!(override_config.unwrap().extra_args, Some(vec!["--nocapture".to_string()]));

    let override_config2 = config.get_override_for(&identity("test_bar"));
    assert!(override_config2.is_none());
}

#[test]
fn merged_levels_and_override_merging() {
    let mut merger = ConfigMerger::new();
    merger.set_root_config(
        "/root/.cargo-runner.json".into(),
        Config {
            command: Some("cargo".into()),
            overrides: vec![Override {
                identity: identity("t"),
                extra_args: Some(vec!["--a".into()]),
                ..Default::default()
            }],
            ..Default::default()
        },
    );
    merger.set_package_config(
        "/root/pkg/.cargo-runner.json".into(),
        Config {
            subcommand: Some("nextest".into()),
            overrides: vec![
                Override {
                    identity: identity("t"),
                    extra_args: Some(vec!["--b".into()]),
                    channel: Some("nightly".into()),
                    ..Default::default()
                },
                Override { identity: identity("u"), ..Default::default() },
            ],
            ..Default::default()
        },
    );
    let merged = merger.get_merged_config();
    assert_eq!(merged.command.as_deref(), Some("cargo"));
    assert_eq!(merged.subcommand.as_deref(), Some("nextest"));
    assert_eq!(merged.overrides.len(), 2);
    assert_eq!(merged.overrides[0].extra_args, Some(vec!["--a".to_string(), "--b".to_string()]));
    assert_eq!(merged.overrides[0].channel.as_deref(), Some("nightly"));
    let info = merger.get_config_info();
    assert_eq!(info.root_config_path.as_deref(), Some("/root/.cargo-runner.json"));
    assert_eq!(info.workspace_config_path, None);
}

fn create_test_runnable(name: &str, mod_path: &str) -> Runnable {
    Runnable {
        label: format!("Run test '{name}'"),
        scope: Scope {
            start: Position { line: 1, character: 0 },
            end: Position { line: 5, character: 0 },
            kind: ScopeKind::Test,
            name: Some(name.to_string()),
        },
        kind: RunnableKind::Test { test_name: name.to_string(), is_async: false },
        mod_path: mod_path.to_string(),
        file_path: "/project/src/lib.rs".to_string(),
        extended_scope: None,
    }
}

#[test]
fn test_build_test_command() {
    let config = Config::default();
    let builder = CommandBuilder::new(config);

    let runnable = create_test_runnable("test_addition", "my_crate::tests");
    let command = builder.build_command(&runnable, Some("my_crate"), "/project").unwrap();

    assert_eq!(
        command.args,
        vec!["test", "--package", "my_crate", "--lib", "--", "my_crate::tests::test_addition", "--exact"]
    );
}

#[test]
fn test_build_doc_test_command() {
    let config = Config::default();
    let builder = CommandBuilder::new(config);

    let runnable = Runnable {
        label: "Run doc test".to_string(),
        scope: Scope {
            start: Position { line: 1, character: 0 },
            end: Position { line: 5, character: 0 },
            kind: ScopeKind::DocTest,
            name: Some("doc test".to_string()),
        },
        kind: RunnableKind::DocTest { struct_or_module_name: "User".to_string(), method_name: Some("new".to_string()) },
        mod_path: String::new(),
        file_path: "/project/src/user.rs".to_string(),
        extended_scope: None,
    };

    let command = builder.build_command(&runnable, Some("my_crate"), "/project").unwrap();

    assert_eq!(command.args, vec!["test", "--doc", "--package", "my_crate", "--", "User::new"]);
}

#[test]
fn test_build_binary_command() {
    let config = Config::default();
    let builder = CommandBuilder::new(config);

    let runnable = Runnable {
        label: "Run main()".to_string(),
        scope: Scope {
            start: Position { line: 1, character: 0 },
            end: Position { line: 5, character: 0 },
            kind: ScopeKind::Function,
            name: Some("main".to_string()),
        },
        kind: RunnableKind::Binary { bin_name: None },
        mod_path: String::new(),
        file_path: "/project/src/main.rs".to_string(),
        extended_scope: None,
    };

    let command = builder.build_command(&runnable, Some("my_crate"), "/project").unwrap();

    assert_eq!(command.args, vec!["run", "--package", "my_crate"]);
}

#[test]
fn overrides_shape_the_command() {
    let config = Config {
        channel: Some("stable".into()),
        extra_args: Some(vec!["--global".into()]),
        overrides: vec![Override {
            identity: FunctionIdentity { function_name: Some("special".into()), ..Default::default() },
            subcommand: Some("nextest".into()),
            extra_args: Some(vec!["--x".into()]),
            extra_test_binary_args: Some(vec!["--y".into()]),
            channel: Some("nightly".into()),
            extra_env: Some(vec![("A".into(), "1".into())]),
            ..Default::default()
        }],
        env: Some(vec![("A".into(), "0".into()), ("B".into(), "2".into())]),
        ..Default::default()
    };
    let builder = CommandBuilder::new(config);
    let plain = builder.build_command(&create_test_runnable("other", ""), None, "/project").unwrap();
    assert_eq!(plain.args, vec!["+stable", "test", "--lib", "--global", "--", "other", "--exact"]);
    let special = builder.build_command(&create_test_runnable("special", "m"), None, "/project").unwrap();
    assert_eq!(special.args, vec!["+nightly", "test", "nextest", "--lib", "--x", "--", "m::special", "--exact", "--y"]);
    assert_eq!(special.env, vec![("A".to_string(), "1".to_string()), ("B".to_string(), "2".to_string())]);
}

#[test]
fn test_debug_relative_paths() {
    let test_cases = vec![
        ("server/tests/just_test.rs", "server", "tests/just_test.rs"),
        ("server/tests/just_test.rs", "server", "tests/*.rs"),
        ("tests/just_test.rs", ".", "tests/just_test.rs"),
        ("tests/just_test.rs", ".", "tests/*.rs"),
    ];

    for (file_path, build_dir, expected_relative) in test_cases {
        println!("\nTest case:");
        println!("  File path: {}", file_path);
        println!("  BUILD dir: {}", build_dir);
        println!("  Expected relative: {}", expected_relative);

        if let Some(relative) = strip_prefix(file_path, build_dir) {
            println!("  Actual relative: {}", relative);
        } else {
            println!("  Failed to compute relative path");
        }
    }
    assert_eq!(strip_prefix("server/tests/just_test.rs", "server").as_deref(), Some("tests/just_test.rs"));
    assert_eq!(strip_prefix("tests/just_test.rs", "."), None);
}

#[test]
fn test_glob_patterns_detailed() {
    let finder = cargo_runner_core::bazel::target_finder::BazelTargetFinder::new().unwrap();
    let patterns = vec![
        ("tests/*.rs", "tests/just_test.rs", true),
        ("tests/*.rs", "tests/subfolder/test.rs", false),
        ("tests/**/*.rs", "tests/just_test.rs", true),
        ("tests/**/*.rs", "tests/subfolder/test.rs", true),
        ("**/*.rs", "tests/just_test.rs", true),
        ("**/*.rs", "server/tests/just_test.rs", true),
    ];

    println!("\nGlob pattern matching tests:");
    for (pattern, file_path, expected) in patterns {
        println!("  Pattern: {} vs File: {} => Expected: {}", pattern, file_path, expected);
        assert_eq!(finder.matches_glob_pattern(file_path, pattern), expected);
    }
}

#[test]
fn package_level_wins_and_level_args_accumulate() {
    let mut merger = ConfigMerger::new();
    merger.set_root_config(
        "/root/.cargo-runner.json".to_string(),
        Config {
            command: Some("cargo".to_string()),
            channel: Some("stable".to_string()),
            extra_args: Some(vec!["--root".to_string()]),
            ..Default::default()
        },
    );
    merger.set_workspace_config(
        "/ws/.cargo-runner.json".to_string(),
        Config { channel: Some("beta".to_string()), extra_args: Some(vec!["--ws".to_string()]), ..Default::default() },
    );
    merger.set_package_config(
        "/ws/pkg/.cargo-runner.json".to_string(),
        Config {
            channel: Some("nightly".to_string()),
            extra_args: Some(vec!["--pkg".to_string()]),
            ..Default::default()
        },
    );
    let merged = merger.get_merged_config();
    assert_eq!(merged.command, Some("cargo".to_string()));
    assert_eq!(merged.channel, Some("nightly".to_string()));
    assert_eq!(
        merged.extra_args,
        Some(vec!["--root".to_string(), "--ws".to_string(), "--pkg".to_string()])
    );
}
