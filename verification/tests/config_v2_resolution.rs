use cargo_runner_core::build_system::BuildSystem;
use cargo_runner_core::command::CommandType;
use cargo_runner_core::config::v2::builder::{ConfigBuilder, LayerConfigExt};
use cargo_runner_core::config::v2::resolver::FileFacts;
use cargo_runner_core::config::v2::scope;
use cargo_runner_core::config::v2::scope::ScopeContext;
use cargo_runner_core::config::v2::strategy::{CargoNextestStrategy, CargoTestStrategy, CommandContext, FrameworkStrategy};
use cargo_runner_core::types::{FileType, Position, Runnable, RunnableKind, Scope, ScopeKind};

#[test]
fn test_basic_resolution() {
    let config = ConfigBuilder::new()
        .workspace(|w| {
            w.build_system(BuildSystem::Cargo)
                .framework_test("cargo-test")
                .args_test(vec!["--nocapture".into()])
                .env("RUST_LOG", "info");
        })
        .build();

    let resolver = config.resolver();
    let context = ScopeContext::new()
        .with_crate("my-crate".into())
        .with_function("test_something".into());

    let command = resolver
        .resolve_command(&context, RunnableKind::Test { test_name: "test_something".into(), is_async: false })
        .unwrap();

    assert_eq!(command.command_type, CommandType::Cargo);
    assert!(command.args.contains(&"test".into()));
    assert!(command.args.contains(&"--nocapture".into()));
    assert!(command.env.iter().any(|(k, v)| k == "RUST_LOG" && v == "info"));
}

#[test]
fn test_layered_resolution() {
    let config = ConfigBuilder::new()
        .workspace(|w| {
            w.build_system(BuildSystem::Cargo)
                .framework_test("cargo-test")
                .args_test(vec!["--nocapture".into()])
                .env("RUST_LOG", "info");
        })
        .crate_override("my-crate", |c| {
            c.framework_test("cargo-nextest").env("RUST_LOG", "debug");
        })
        .build();

    let resolver = config.resolver();
    let context = ScopeContext::new()
        .with_crate("my-crate".into())
        .with_function("test_something".into());

    let command = resolver
        .resolve_command(&context, RunnableKind::Test { test_name: "test_something".into(), is_async: false })
        .unwrap();

    assert!(command.args.contains(&"nextest".into()));
    assert!(command.args.contains(&"--nocapture".into()));
    assert!(command.env.iter().any(|(k, v)| k == "RUST_LOG" && v == "debug"));
}

#[test]
fn test_specificity_ordering() {
    let config = ConfigBuilder::new()
        .workspace(|w| {
            w.build_system(BuildSystem::Cargo).framework_test("cargo-test").env("LEVEL", "workspace");
        })
        .module_override("tests", |m| {
            m.env("LEVEL", "module");
        })
        .function_override("test_specific", |f| {
            f.env("LEVEL", "function");
        })
        .build();

    let resolver = config.resolver();

    let context1 = ScopeContext::new().with_crate("my-crate".into());
    let command1 = resolver
        .resolve_command(&context1, RunnableKind::Test { test_name: "test".into(), is_async: false })
        .unwrap();
    assert!(command1.env.iter().any(|(k, v)| k == "LEVEL" && v == "workspace"));

    let context2 = ScopeContext::new().with_module("tests".into());
    let command2 = resolver
        .resolve_command(&context2, RunnableKind::Test { test_name: "test".into(), is_async: false })
        .unwrap();
    assert!(command2.env.iter().any(|(k, v)| k == "LEVEL" && v == "module"));

    let context3 = ScopeContext::new()
        .with_module("tests".into())
        .with_function("test_specific".into());
    let command3 = resolver
        .resolve_command(&context3, RunnableKind::Test { test_name: "test_specific".into(), is_async: false })
        .unwrap();
    assert!(command3.env.iter().any(|(k, v)| k == "LEVEL" && v == "function"));
}

#[test]
fn test_cargo_test_strategy() {
    let strategy = CargoTestStrategy::new();
    let context = CommandContext {
        file_path: Some("src/lib.rs".into()),
        crate_name: Some("my-crate".into()),
        package_name: Some("my-crate".into()),
        mod_path: Some("tests".into()),
        function_name: Some("test_something".into()),
        runnable_kind: RunnableKind::Test { test_name: "test_something".into(), is_async: false },
        working_dir: Some("/project".into()),
        temp_dir: None,
        build_targets: None,
    };

    let command = strategy.build_command(&context).unwrap();
    assert_eq!(command.command_type, CommandType::Cargo);
    assert!(command.args.contains(&"test".into()));
    assert!(command.args.contains(&"--package".into()));
    assert!(command.args.contains(&"my-crate".into()));
    assert!(command.args.contains(&"tests::test_something".into()));
    assert!(command.args.contains(&"--exact".into()));
}

#[test]
fn test_cargo_nextest_strategy() {
    let strategy = CargoNextestStrategy::new();
    let context = CommandContext {
        file_path: Some("src/lib.rs".into()),
        crate_name: Some("my-crate".into()),
        package_name: Some("my-crate".into()),
        mod_path: Some("tests".into()),
        function_name: Some("test_something".into()),
        runnable_kind: RunnableKind::Test { test_name: "test_something".into(), is_async: false },
        working_dir: None,
        temp_dir: None,
        build_targets: None,
    };

    let command = strategy.build_command(&context).unwrap();
    assert_eq!(command.command_type, CommandType::Cargo);
    assert!(command.args.contains(&"nextest".into()));
    assert!(command.args.contains(&"run".into()));
    assert!(command.args.contains(&"tests::test_something".into()));
}

#[test]
fn test_workspace_config_integration() {
    let config = ConfigBuilder::new()
        .workspace(|w| {
            w.build_system(BuildSystem::Cargo)
                .framework_test("cargo-test")
                .framework_binary("cargo-run")
                .args_test(vec!["--nocapture".into()])
                .env("RUST_LOG", "info");
        })
        .build();

    let resolver = config.resolver();
    let context = scope::ScopeContext::new()
        .with_crate("my-crate".into())
        .with_module("tests".into())
        .with_function("test_something".into());

    let command = resolver
        .resolve_command(&context, RunnableKind::Test { test_name: "test_something".into(), is_async: false })
        .unwrap();

    assert_eq!(command.command_type, CommandType::Cargo);
    assert!(command.args.contains(&"test".into()));
    assert!(command.args.contains(&"--nocapture".into()));
    assert!(command.args.contains(&"--package".into()));
    assert!(command.args.contains(&"my-crate".into()));
    assert!(command.args.contains(&"tests::test_something".into()));
    assert!(command.env.iter().any(|(k, v)| k == "RUST_LOG" && v == "info"));
}

#[test]
fn test_cascading_overrides_integration() {
    let config = ConfigBuilder::new()
        .workspace(|w| {
            w.build_system(BuildSystem::Cargo)
                .framework_test("cargo-test")
                .args_all(vec!["--verbose".into()])
                .env("RUST_LOG", "warn")
                .env("RUST_BACKTRACE", "0");
        })
        .crate_override("special-crate", |c| {
            c.framework_test("cargo-nextest")
                .args_test(vec!["--no-capture".into()])
                .env("RUST_LOG", "info");
        })
        .module_override("special-crate::integration", |m| {
            m.args_test_binary(vec!["--test-threads=1".into()]).env("RUST_BACKTRACE", "1");
        })
        .function_override("test_database", |f| {
            f.env("DATABASE_URL", "postgres://test").env("RUST_LOG", "debug");
        })
        .build();

    let resolver = config.resolver();

    let ctx1 = scope::ScopeContext::new().with_crate("other-crate".into());
    let cmd1 = resolver
        .resolve_command(&ctx1, RunnableKind::Test { test_name: "test".into(), is_async: false })
        .unwrap();
    assert!(cmd1.args.contains(&"test".into()));
    assert!(cmd1.args.contains(&"--verbose".into()));
    assert!(cmd1.env.iter().any(|(k, v)| k == "RUST_LOG" && v == "warn"));
    assert!(cmd1.env.iter().any(|(k, v)| k == "RUST_BACKTRACE" && v == "0"));

    let ctx2 = scope::ScopeContext::new()
        .with_crate("special-crate".into())
        .with_module("utils".into());
    let cmd2 = resolver
        .resolve_command(&ctx2, RunnableKind::Test { test_name: "test".into(), is_async: false })
        .unwrap();
    assert!(cmd2.args.contains(&"nextest".into()));
    assert!(cmd2.args.contains(&"run".into()));
    assert!(cmd2.args.contains(&"--verbose".into()));
    assert!(cmd2.args.contains(&"--no-capture".into()));
    assert!(cmd2.env.iter().any(|(k, v)| k == "RUST_LOG" && v == "info"));
    assert!(cmd2.env.iter().any(|(k, v)| k == "RUST_BACKTRACE" && v == "0"));

    let ctx3 = scope::ScopeContext::new()
        .with_crate("special-crate".into())
        .with_module("special-crate::integration".into());
    let cmd3 = resolver
        .resolve_command(&ctx3, RunnableKind::Test { test_name: "test".into(), is_async: false })
        .unwrap();
    assert!(cmd3.env.iter().any(|(k, v)| k == "RUST_BACKTRACE" && v == "1"));

    let ctx4 = scope::ScopeContext::new()
        .with_crate("special-crate".into())
        .with_module("special-crate::integration".into())
        .with_function("test_database".into());
    let cmd4 = resolver
        .resolve_command(&ctx4, RunnableKind::Test { test_name: "test_database".into(), is_async: false })
        .unwrap();
    assert!(cmd4.env.iter().any(|(k, v)| k == "DATABASE_URL" && v == "postgres://test"));
    assert!(cmd4.env.iter().any(|(k, v)| k == "RUST_LOG" && v == "debug"));
}

#[test]
fn test_framework_strategies_integration() {
    let config = ConfigBuilder::new()
        .workspace(|w| {
            w.build_system(BuildSystem::Cargo)
                .framework_test("cargo-test")
                .framework_binary("cargo-run")
                .framework_benchmark("cargo-bench");
        })
        .build();

    let resolver = config.resolver();
    let context = scope::ScopeContext::new()
        .with_crate("my-crate".into())
        .with_file("src/main.rs".into());

    let test_cmd = resolver
        .resolve_command(&context, RunnableKind::Test { test_name: "my_test".into(), is_async: false })
        .unwrap();
    assert!(test_cmd.args.contains(&"test".into()));

    let bin_cmd = resolver
        .resolve_command(&context, RunnableKind::Binary { bin_name: Some("my-app".into()) })
        .unwrap();
    assert!(bin_cmd.args.contains(&"run".into()));
    assert!(bin_cmd.args.contains(&"--bin".into()));
    assert!(bin_cmd.args.contains(&"my-app".into()));

    let bench_context = scope::ScopeContext::new()
        .with_crate("my-crate".into())
        .with_function("my_bench".into());
    let bench_cmd = resolver
        .resolve_command(&bench_context, RunnableKind::Benchmark { bench_name: "my_bench".into() })
        .unwrap();
    assert!(bench_cmd.args.contains(&"bench".into()));
    assert!(bench_cmd.args.contains(&"--bench".into()));
    assert!(bench_cmd.args.contains(&"my_bench".into()));
}

#[test]
fn test_file_based_overrides_integration() {
    let config = ConfigBuilder::new()
        .workspace(|w| {
            w.build_system(BuildSystem::Cargo).framework_binary("cargo-run");
        })
        .file_override("src/bin/web_app.rs", |f| {
            f.framework_binary("cargo-run")
                .args_binary(vec!["--hot-reload".into()])
                .env("DIOXUS_LOG", "debug");
        })
        .file_override("examples/demo.rs", |f| {
            f.framework_binary("cargo-run").args_binary(vec!["--example".into(), "demo".into()]);
        })
        .build();

    let resolver = config.resolver();

    let ctx1 = scope::ScopeContext::new().with_file("src/main.rs".into());
    let cmd1 = resolver.resolve_command(&ctx1, RunnableKind::Binary { bin_name: None }).unwrap();
    assert!(cmd1.args.contains(&"run".into()));
    assert!(!cmd1.args.contains(&"--hot-reload".into()));

    let ctx2 = scope::ScopeContext::new().with_file("src/bin/web_app.rs".into());
    let cmd2 = resolver.resolve_command(&ctx2, RunnableKind::Binary { bin_name: None }).unwrap();
    assert!(cmd2.args.contains(&"--hot-reload".into()));
    assert!(cmd2.env.iter().any(|(k, v)| k == "DIOXUS_LOG" && v == "debug"));

    let ctx3 = scope::ScopeContext::new().with_file("examples/demo.rs".into());
    let cmd3 = resolver.resolve_command(&ctx3, RunnableKind::Binary { bin_name: None }).unwrap();
    assert!(cmd3.args.contains(&"--example".into()));
    assert!(cmd3.args.contains(&"demo".into()));
}

#[test]
fn test_argument_merging_integration() {
    let config = ConfigBuilder::new()
        .workspace(|w| {
            w.build_system(BuildSystem::Cargo)
                .framework_test("cargo-test")
                .args_all(vec!["--verbose".into()])
                .args_test(vec!["--nocapture".into()]);
        })
        .crate_override("my-crate", |c| {
            c.args_test(vec!["--no-fail-fast".into()]).args_test_binary(vec!["--test-threads=1".into()]);
        })
        .build();

    let resolver = config.resolver();
    let context = scope::ScopeContext::new()
        .with_crate("my-crate".into())
        .with_function("test_something".into());

    let command = resolver
        .resolve_command(&context, RunnableKind::Test { test_name: "test_something".into(), is_async: false })
        .unwrap();

    assert!(command.args.contains(&"--verbose".into()));
    assert!(command.args.contains(&"--nocapture".into()));
    assert!(command.args.contains(&"--no-fail-fast".into()));

    let separator_pos = command.args.iter().position(|arg| arg == "--").unwrap();
    let after_separator = &command.args[separator_pos + 1..];
    assert!(after_separator.contains(&"--test-threads=1".into()));
}

#[test]
fn test_missing_build_system_error() {
    let config = ConfigBuilder::new()
        .workspace(|w| {
            w.framework_test("cargo-test");
        })
        .build();

    let resolver = config.resolver();
    let context = scope::ScopeContext::new();

    let result = resolver.resolve_command(&context, RunnableKind::Test { test_name: "test".into(), is_async: false });

    assert!(result.is_err());
    assert_eq!(result.unwrap_err(), "No build system specified");
}

#[test]
fn test_missing_framework_error() {
    let config = ConfigBuilder::new()
        .workspace(|w| {
            w.build_system(BuildSystem::Cargo);
        })
        .build();

    let resolver = config.resolver();
    let context = scope::ScopeContext::new();

    let result = resolver.resolve_command(&context, RunnableKind::Test { test_name: "test".into(), is_async: false });

    assert!(result.is_err());
    assert!(result.unwrap_err().contains("No framework strategy"));
}

#[test]
fn test_unknown_strategy_error() {
    let config = ConfigBuilder::new()
        .workspace(|w| {
            w.build_system(BuildSystem::Cargo).framework_test("unknown-strategy");
        })
        .build();

    let resolver = config.resolver();
    let context = scope::ScopeContext::new();

    let result = resolver.resolve_command(&context, RunnableKind::Test { test_name: "test".into(), is_async: false });

    assert!(result.is_err());
    assert!(result.unwrap_err().contains("Unknown strategy: unknown-strategy"));
}

#[test]
fn test_all_runnable_kinds_integration() {
    let config = ConfigBuilder::new()
        .workspace(|w| {
            w.build_system(BuildSystem::Cargo)
                .framework_test("cargo-test")
                .framework_binary("cargo-run")
                .framework_benchmark("cargo-bench");
        })
        .build();

    let resolver = config.resolver();
    let context = scope::ScopeContext::new().with_crate("my-crate".into());

    let kinds = vec![
        RunnableKind::Test { test_name: "test".into(), is_async: false },
        RunnableKind::Binary { bin_name: Some("app".into()) },
        RunnableKind::Benchmark { bench_name: "bench".into() },
        RunnableKind::DocTest { struct_or_module_name: "MyStruct".into(), method_name: None },
        RunnableKind::ModuleTests { module_name: "tests".into() },
        RunnableKind::Standalone { has_tests: false },
        RunnableKind::SingleFileScript { shebang: "#!/usr/bin/env rust-script".into() },
    ];

    for kind in kinds {
        let is_doctest = matches!(&kind, RunnableKind::DocTest { .. });
        let result = resolver.resolve_command(&context, kind);
        if is_doctest {
            assert!(result.is_err());
        } else {
            assert!(result.is_ok(), "Failed for {:?}", result);
        }
    }
}

fn create_test_runnable() -> Runnable {
    Runnable {
        label: "test_example".to_string(),
        kind: RunnableKind::Test { test_name: "test_example".to_string(), is_async: false },
        scope: Scope {
            start: Position::new(1, 0),
            end: Position::new(10, 0),
            kind: ScopeKind::Function,
            name: Some("test_example".to_string()),
        },
        mod_path: "tests".to_string(),
        file_path: "src/tests.rs".to_string(),
        extended_scope: None,
    }
}

#[test]
fn test_v2_config_with_runner() {
    let v2_config = ConfigBuilder::new()
        .workspace(|w| {
            w.build_system(BuildSystem::Cargo)
                .framework_test("cargo-nextest")
                .args_test(vec!["--no-capture".into()])
                .env("RUST_LOG", "debug");
        })
        .build();

    let runnable = create_test_runnable();
    let resolver = v2_config.resolver();
    let context = ScopeContext::new()
        .with_crate("my-crate".to_string())
        .with_module(runnable.mod_path.clone())
        .with_function(runnable.scope.name.clone().unwrap_or_default());

    let command = resolver.resolve_command(&context, runnable.kind).unwrap();

    assert!(command.args.contains(&"nextest".to_string()));
    assert!(command.args.contains(&"run".to_string()));
    assert!(command.args.contains(&"--no-capture".to_string()));
    assert!(command.env.iter().any(|(k, v)| k == "RUST_LOG" && v == "debug"));
}

#[test]
fn test_v2_config_with_module_scope() {
    let v2_config = ConfigBuilder::new()
        .workspace(|w| {
            w.build_system(BuildSystem::Cargo).framework_test("cargo-test");
        })
        .module_override("integration", |m| {
            m.framework_test("cargo-nextest").args_test(vec!["--test-threads=1".into()]);
        })
        .build();

    let mut runnable = create_test_runnable();
    runnable.mod_path = "integration::tests".to_string();

    let resolver = v2_config.resolver();
    let context = ScopeContext::new()
        .with_crate("my-crate".to_string())
        .with_module(runnable.mod_path.clone())
        .with_function(runnable.scope.name.clone().unwrap_or_default());

    let command = resolver.resolve_command(&context, runnable.kind).unwrap();

    assert!(command.args.contains(&"nextest".to_string()));
    assert!(command.args.contains(&"--test-threads=1".to_string()));
}

#[test]
fn test_v2_config_priority_order() {
    let v2_config = ConfigBuilder::new()
        .workspace(|w| {
            w.build_system(BuildSystem::Cargo)
                .framework_test("cargo-test")
                .args_test(vec!["--workspace-arg".into()]);
        })
        .crate_override("my-crate", |c| {
            c.args_test(vec!["--crate-arg".into()]);
        })
        .function_override("test_example", |f| {
            f.args_test(vec!["--function-arg".into()]);
        })
        .build();

    let runnable = create_test_runnable();
    let resolver = v2_config.resolver();
    let context = ScopeContext::new()
        .with_crate("my-crate".to_string())
        .with_module(runnable.mod_path.clone())
        .with_function(runnable.scope.name.clone().unwrap_or_default());

    let command = resolver.resolve_command(&context, runnable.kind).unwrap();

    assert!(command.args.contains(&"--workspace-arg".to_string()));
    assert!(command.args.contains(&"--crate-arg".to_string()));
    assert!(command.args.contains(&"--function-arg".to_string()));
}

#[test]
fn resolution_exact_command_lines() {
    let config = ConfigBuilder::new()
        .workspace(|w| {
            w.build_system(BuildSystem::Cargo)
                .framework_test("cargo-test")
                .args_all(vec!["--verbose".into()])
                .args_test_binary(vec!["--nocapture".into()]);
        })
        .build();
    let resolver = config.resolver();
    let context = ScopeContext::new().with_crate("c".into()).with_module("m".into());
    let cmd = resolver
        .resolve_command(&context, RunnableKind::Test { test_name: "t".into(), is_async: false })
        .unwrap();
    // Extra arguments go before the first `--`, test binary arguments at the end.
    assert_eq!(cmd.args, vec!["test", "--package", "c", "--verbose", "--", "m::t", "--exact", "--nocapture"]);

    // A module test run without a filter has no `--`; one is added for the binary's arguments.
    let cmd = resolver
        .resolve_command(&context, RunnableKind::ModuleTests { module_name: "".into() })
        .unwrap();
    assert_eq!(cmd.args, vec!["test", "--package", "c", "--verbose", "--", "--nocapture"]);
}

#[test]
fn single_file_scripts_use_the_script_strategies() {
    let config = ConfigBuilder::new()
        .workspace(|w| {
            w.build_system(BuildSystem::Cargo).framework_test("cargo-test");
        })
        .build();
    let resolver = config.resolver();
    let context = ScopeContext::new().with_file("/work/script.rs".into()).with_module("tests".into());
    let facts = FileFacts {
        file_type: FileType::SingleFileScript,
        working_dir: Some("/work".into()),
        temp_dir: None,
        build_targets: None,
    };
    let cmd = resolver
        .resolve_command_with(&context, RunnableKind::Test { test_name: "it".into(), is_async: false }, facts)
        .unwrap();
    assert_eq!(cmd.args, vec!["+nightly", "-Zscript", "--test", "/work/script.rs", "--", "tests::it", "--exact"]);
    assert_eq!(cmd.working_dir.as_deref(), Some("/work"));

    let helpers = resolver.resolve_test_command("c", "tests", "it").unwrap();
    assert_eq!(helpers.args, vec!["test", "--package", "c", "--", "tests::it", "--exact"]);
    assert_eq!(
        resolver.resolve_binary_command("src/main.rs").unwrap_err(),
        "No framework strategy for Binary"
    );
}
