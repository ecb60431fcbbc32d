use cargo_runner_core::command::builder_v2::CommandBuilder;
use cargo_runner_core::config::override_config::Override;
use cargo_runner_core::config::settings::Config;
use cargo_runner_core::config::test_framework::TestFramework;
use cargo_runner_core::types::{FunctionIdentity, Position, Runnable, RunnableKind, Scope, ScopeKind};

fn runnable(kind: RunnableKind, mod_path: &str, file: &str) -> Runnable {
    Runnable {
        label: "label".to_string(),
        scope: Scope {
            start: Position { line: 1, character: 0 },
            end: Position { line: 9, character: 0 },
            kind: ScopeKind::Function,
            name: None,
        },
        kind,
        mod_path: mod_path.to_string(),
        file_path: file.to_string(),
        extended_scope: None,
    }
}

fn strings(v: &[&str]) -> Vec<String> {
    v.iter().map(|s| s.to_string()).collect()
}

fn tool(command: Option<&str>, subcommand: Option<&str>) -> TestFramework {
    TestFramework {
        command: command.map(String::from),
        subcommand: subcommand.map(String::from),
        channel: None,
        extra_args: None,
        env: None,
    }
}

#[test]
fn test_command_with_package_target_and_filter() {
    let r = runnable(
        RunnableKind::Test { test_name: "it_works".into(), is_async: false },
        "parser::tests",
        "/p/src/lib.rs",
    );
    let config = Config {
        channel: Some("nightly".into()),
        extra_args: Some(strings(&["--release"])),
        extra_test_binary_args: Some(strings(&["--nocapture"])),
        env: Some(vec![("RUST_LOG".into(), "info".into())]),
        ..Default::default()
    };
    let cmd = CommandBuilder::for_runnable(&r)
        .with_package("core")
        .with_config(config)
        .build_with(Config::default())
        .unwrap();
    assert_eq!(
        cmd.args,
        strings(&[
            "+nightly", "test", "--package", "core", "--lib", "--release", "--",
            "parser::tests::it_works", "--exact", "--nocapture",
        ])
    );
    assert_eq!(cmd.env, vec![("RUST_LOG".to_string(), "info".to_string())]);
}

#[test]
fn loaded_settings_are_used_without_a_given_one() {
    let r = runnable(
        RunnableKind::Test { test_name: "t".into(), is_async: false },
        "",
        "/p/tests/api.rs",
    );
    let loaded = Config { extra_args: Some(strings(&["-q"])), ..Default::default() };
    let builder = CommandBuilder::for_runnable(&r);
    assert!(!builder.has_config());
    let cmd = builder.build_with(loaded).unwrap();
    assert_eq!(cmd.args, strings(&["test", "--test", "api", "-q", "--", "t", "--exact"]));
}

#[test]
fn test_tool_replaces_subcommand_and_override_matches_by_identity() {
    let r = runnable(
        RunnableKind::Test { test_name: "slow".into(), is_async: false },
        "tests",
        "/p/src/main.rs",
    );
    let config = Config {
        package: Some("app".into()),
        test_frameworks: Some(TestFramework {
            command: None,
            subcommand: Some("nextest  run".into()),
            channel: Some("beta".into()),
            extra_args: Some(strings(&["--no-fail-fast"])),
            env: Some(vec![("A".into(), "1".into())]),
        }),
        env: Some(vec![("B".into(), "2".into())]),
        overrides: vec![Override {
            identity: FunctionIdentity {
                package: Some("app".into()),
                mod_path: None,
                file_path: None,
                function_name: Some("slow".into()),
            },
            extra_args: Some(strings(&["--retries", "2"])),
            extra_test_binary_args: Some(strings(&["--ignored"])),
            extra_env: Some(vec![("C".into(), "3".into())]),
            ..Default::default()
        }],
        ..Default::default()
    };
    let cmd = CommandBuilder::for_runnable(&r)
        .with_package("app")
        .with_config(config)
        .build_with(Config::default())
        .unwrap();
    assert_eq!(
        cmd.args,
        strings(&[
            "+beta", "nextest", "run", "--no-fail-fast", "--package", "app", "--bin", "app",
            "--retries", "2", "--", "tests::slow", "--exact", "--ignored",
        ])
    );
    assert_eq!(
        cmd.env,
        vec![
            ("A".to_string(), "1".to_string()),
            ("B".to_string(), "2".to_string()),
            ("C".to_string(), "3".to_string()),
        ]
    );
}

#[test]
fn doc_tests_take_no_channel() {
    let r = runnable(
        RunnableKind::DocTest { struct_or_module_name: "User".into(), method_name: Some("new".into()) },
        "",
        "/p/src/user.rs",
    );
    let config = Config { channel: Some("nightly".into()), ..Default::default() };
    let cmd = CommandBuilder::for_runnable(&r).with_package("core").with_config(config).build_with(Config::default()).unwrap();
    assert_eq!(cmd.args, strings(&["test", "--doc", "--package", "core", "--", "User::new"]));
}

#[test]
fn binaries_examples_and_custom_tools() {
    let main = runnable(RunnableKind::Binary { bin_name: None }, "", "/p/src/main.rs");
    let cmd = CommandBuilder::for_runnable(&main).with_package("app").with_config(Config::default()).build_with(Config::default()).unwrap();
    assert_eq!(cmd.args, strings(&["run", "--package", "app", "--bin", "app"]));

    let example = runnable(RunnableKind::Binary { bin_name: None }, "", "/p/examples/demo.rs");
    let cmd = CommandBuilder::for_runnable(&example).with_config(Config::default()).build_with(Config::default()).unwrap();
    assert_eq!(cmd.args, strings(&["run", "--example", "demo"]));

    let dx = Config {
        channel: Some("nightly".into()),
        binary_framework: Some(tool(Some("dx"), Some("serve"))),
        ..Default::default()
    };
    let cmd = CommandBuilder::for_runnable(&main).with_package("app").with_config(dx).build_with(Config::default()).unwrap();
    assert_eq!(cmd.args, strings(&["dx", "serve"]));

    let leptos = Config { binary_framework: Some(tool(Some("cargo"), Some("leptos watch"))), ..Default::default() };
    let cmd = CommandBuilder::for_runnable(&main).with_package("app").with_config(leptos).build_with(Config::default()).unwrap();
    assert_eq!(cmd.args, strings(&["leptos", "watch", "--package", "app"]));
}

#[test]
fn module_tests_and_benchmarks() {
    let m = runnable(RunnableKind::ModuleTests { module_name: "tests".into() }, "a", "/p/src/lib.rs");
    let cmd = CommandBuilder::for_runnable(&m).with_config(Config::default()).build_with(Config::default()).unwrap();
    assert_eq!(cmd.args, strings(&["test", "--lib", "--", "tests"]));

    let b = runnable(RunnableKind::Benchmark { bench_name: "speed".into() }, "", "/p/benches/speed.rs");
    let config = Config { extra_test_binary_args: Some(strings(&["--quick"])), ..Default::default() };
    let cmd = CommandBuilder::for_runnable(&b).with_package("p").with_config(config).build_with(Config::default()).unwrap();
    assert_eq!(
        cmd.args,
        strings(&["bench", "--package", "p", "--bench", "speed", "--", "speed", "--quick"])
    );
    let inline = runnable(RunnableKind::Benchmark { bench_name: "speed".into() }, "", "/p/src/lib.rs");
    let cmd = CommandBuilder::for_runnable(&inline).with_config(Config::default()).build_with(Config::default()).unwrap();
    assert_eq!(cmd.args, strings(&["bench", "--", "speed"]));
}

#[test]
fn standalone_files_have_no_builder_here() {
    let s = runnable(RunnableKind::Standalone { has_tests: false }, "", "/tmp/a.rs");
    assert!(CommandBuilder::for_runnable(&s).with_project_root("/tmp").build_with(Config::default()).is_err());
}
