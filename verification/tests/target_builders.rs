use cargo_runner_core::command::target_builder::{DocTestBuilder, TestBuilder};
use cargo_runner_core::config::override_config::Override;
use cargo_runner_core::config::settings::Config;
use cargo_runner_core::config::test_framework::TestFramework;
use cargo_runner_core::types::{FunctionIdentity, Position, Runnable, RunnableKind, Scope, ScopeKind};

fn runnable(kind: RunnableKind, mod_path: &str, file: &str) -> Runnable {
    Runnable {
        label: "l".to_string(),
        scope: Scope {
            start: Position { line: 0, character: 0 },
            end: Position { line: 1, character: 0 },
            kind: ScopeKind::Function,
            name: None,
        },
        kind,
        mod_path: mod_path.to_string(),
        file_path: file.to_string(),
        extended_scope: None,
    }
}

fn strings(v: &[&str]) -> Vec<String> {
    v.iter().map(|s| s.to_string()).collect()
}

#[test]
fn test_builder_uses_the_tool_and_sets_variables_as_a_map() {
    let config = Config {
        channel: Some("stable".into()),
        test_frameworks: Some(TestFramework {
            command: None,
            subcommand: Some("nextest run".into()),
            channel: None,
            extra_args: None,
            env: Some(vec![("A".into(), "tool".into()), ("B".into(), "tool".into())]),
        }),
        env: Some(vec![("A".into(), "global".into())]),
        overrides: vec![Override {
            identity: FunctionIdentity { package: None, mod_path: None, file_path: None, function_name: Some("t".into()) },
            extra_env: Some(vec![("B".into(), "override".into())]),
            extra_args: Some(strings(&["--no-fail-fast"])),
            ..Default::default()
        }],
        ..Default::default()
    };
    let r = runnable(RunnableKind::Test { test_name: "t".into(), is_async: false }, "m", "/p/src/main.rs");
    let cmd = TestBuilder::new(config).build(&r, Some("p"), "/p").unwrap();
    assert_eq!(
        cmd.args,
        strings(&["+stable", "nextest", "run", "--package", "p", "--bin", "main", "--no-fail-fast", "--", "m::t", "--exact"])
    );
    assert_eq!(
        cmd.env,
        vec![("A".to_string(), "global".to_string()), ("B".to_string(), "override".to_string())]
    );
}

#[test]
fn doc_test_builder_matches_overrides_by_directory_package() {
    let config = Config {
        overrides: vec![Override {
            identity: FunctionIdentity { package: Some("src".into()), mod_path: None, file_path: None, function_name: None },
            extra_test_binary_args: Some(strings(&["--show-output"])),
            ..Default::default()
        }],
        extra_args: Some(strings(&["-q"])),
        ..Default::default()
    };
    let r = runnable(
        RunnableKind::DocTest { struct_or_module_name: "User".into(), method_name: None },
        "",
        "/project/src/user.rs",
    );
    let cmd = DocTestBuilder::new(config).build(&r, None, "/project").unwrap();
    assert_eq!(cmd.args, strings(&["test", "--doc", "-q", "--", "User", "--show-output"]));
}
