use cargo_runner_core::build_system::bazel::BazelCommandBuilder;
use cargo_runner_core::command::command::{shell_quote, Command, CommandStrategy};
use cargo_runner_core::command::{CargoCommand, CommandType};

#[test]
fn ordinary_values_are_left_bare() {
    for v in ["cargo", "--release", "src/lib.rs", "a::b::c", "KEY=value", "1.2.3"] {
        assert_eq!(shell_quote(v), v, "{v} should not need quoting");
    }
}

#[test]
fn shell_metacharacters_are_neutralised() {
    assert_eq!(shell_quote("a;id"), "'a;id'");
    assert_eq!(shell_quote("$(id)"), "'$(id)'");
    assert_eq!(shell_quote("`id`"), "'`id`'");
    assert_eq!(shell_quote("a b"), "'a b'");
    assert_eq!(shell_quote(""), "''");
}

#[test]
fn embedded_single_quotes_cannot_close_the_quoting() {
    let quoted = shell_quote("x';id;'");
    assert_eq!(quoted, r#"'x'\'';id;'\'''"#);
    assert!(quoted.starts_with('\'') && quoted.ends_with('\''));
}

fn rustc_build() -> Command {
    Command::rustc(vec![
        "--test".to_string(),
        "/tmp/x.rs".to_string(),
        "-o".to_string(),
        "/tmp/x_test".to_string(),
    ])
}

#[test]
fn without_a_prefix_the_rendering_is_unchanged() {
    let cmd = rustc_build();
    let shell = cmd.to_shell_command();
    assert!(shell.starts_with("rustc --test"), "got: {shell}");
    assert!(shell.contains("&& /tmp/x_test"), "got: {shell}");
}

#[test]
fn a_prefix_wraps_only_the_compile_step() {
    let mut cmd = rustc_build();
    cmd.compiler_prefix = Some(vec!["rustup".to_string(), "run".to_string(), "nightly".to_string()]);
    let shell = cmd.to_shell_command();

    assert!(shell.starts_with("rustup run nightly rustc --test"), "compile step should be wrapped: {shell}");
    assert!(shell.contains("&& /tmp/x_test"), "the output binary must still run: {shell}");
}

#[test]
fn a_prefix_does_not_change_the_strategy_or_resolved_program() {
    let mut cmd = rustc_build();
    cmd.compiler_prefix = Some(vec!["rustup".into(), "run".into(), "nightly".into()]);

    assert_eq!(cmd.strategy, CommandStrategy::Rustc);
    assert_eq!(cmd.resolved_program(), "rustc");
}

#[test]
fn a_prefix_preserves_the_rustc_specific_fields() {
    let mut cmd = rustc_build();
    cmd.compiler_prefix = Some(vec!["rustup".into(), "run".into(), "nightly".into()]);
    cmd.test_filter = Some("mod::it_works".to_string());
    cmd.exec_args = Some(vec!["--nocapture".to_string()]);
    cmd.test_binary_args = Some(vec!["--ignored".to_string()]);

    let shell = cmd.to_shell_command();
    for expected in ["--nocapture", "mod::it_works", "--ignored"] {
        assert!(shell.contains(expected), "{expected} should survive: {shell}");
    }
}

#[test]
fn test_build_test_command_simple() {
    let cmd = BazelCommandBuilder::build_test_command(None, &[]).unwrap();

    assert_eq!(cmd.command_type, CommandType::Bazel);
    assert_eq!(cmd.args, vec!["test", ":test", "--test_output", "streamed"]);
}

#[test]
fn test_build_test_command_with_filter() {
    let cmd = BazelCommandBuilder::build_test_command(Some("tests::example"), &["--nocapture".to_string()]).unwrap();

    assert_eq!(cmd.command_type, CommandType::Bazel);
    assert_eq!(
        cmd.args,
        vec![
            "test",
            ":test",
            "--test_output",
            "streamed",
            "--test_arg",
            "--exact",
            "--test_arg",
            "tests::example",
            "--test_arg",
            "--nocapture"
        ]
    );
}

#[test]
fn test_build_run_command() {
    let cmd = BazelCommandBuilder::build_run_command(None, &[]).unwrap();

    assert_eq!(cmd.command_type, CommandType::Bazel);
    assert_eq!(cmd.args, vec!["run", "//:server"]);
}

#[test]
fn test_build_run_command_with_args() {
    let cmd = BazelCommandBuilder::build_run_command(Some("my_binary"), &["--port".to_string(), "8080".to_string()]).unwrap();

    assert_eq!(cmd.command_type, CommandType::Bazel);
    assert_eq!(cmd.args, vec!["run", "//:my_binary", "--", "--port", "8080"]);
}

#[test]
fn cargo_command_shell_rendering() {
    let cmd = CargoCommand::new(vec!["test".into(), "a b".into()])
        .with_env("K".into(), "V".into())
        .with_working_dir("/w".into());
    assert_eq!(cmd.working_dir.as_deref(), Some("/w"));
    assert_eq!(cmd.env, vec![("K".to_string(), "V".to_string())]);
    let line = cmd.to_shell_command();
    assert!(line.contains("cargo test 'a b'"), "got: {line}");
    let shell = CargoCommand::new_shell("dx".into(), vec!["serve".into()]);
    assert_eq!(shell.args, vec!["dx", "serve"]);
    assert_eq!(shell.command_type, CommandType::Shell);
}

#[test]
fn the_rustc_preview_quotes_the_test_tail() {
    let mut cmd = Command::rustc(vec![
        "--test".to_string(),
        "a.rs".to_string(),
        "-o".to_string(),
        "a_test".to_string(),
    ]);
    cmd.test_filter = Some("a;id".to_string());
    assert_eq!(cmd.to_shell_command(), "rustc --test a.rs -o a_test && ./a_test 'a;id'");
    cmd.test_filter = Some("tests::plain".to_string());
    cmd.test_binary_args = Some(vec!["--nocapture".to_string(), "x y".to_string()]);
    assert_eq!(
        cmd.to_shell_command(),
        "rustc --test a.rs -o a_test && ./a_test tests::plain --nocapture 'x y'"
    );
}
