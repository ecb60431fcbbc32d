use cargo_runner_core::command::file_builder::cargo::{
    rustdoc_module_prefix, BenchmarkCommandBuilder, BinaryCommandBuilder, DocTestCommandBuilder, TestCommandBuilder,
};
use cargo_runner_core::command::file_builder::dispatch::CommandBuilder;
use cargo_runner_core::command::file_builder::rustc::RustcCommandBuilder;
use cargo_runner_core::command::file_builder::script::{parse_shebang_args, shebang_of, SingleFileScriptBuilder};
use cargo_runner_core::command::file_builder::{FileConfig, FileOverride};
use cargo_runner_core::command::CommandType;
use cargo_runner_core::config::cargo_config::{CargoConfig, SingleFileScriptConfig};
use cargo_runner_core::error::Error;
use cargo_runner_core::types::{FileType, FunctionIdentity, Position, Runnable, RunnableKind, Scope, ScopeKind};

fn runnable(kind: RunnableKind, mod_path: &str, file: &str) -> Runnable {
    Runnable {
        label: "l".to_string(),
        scope: Scope {
            start: Position { line: 0, character: 0 },
            end: Position { line: 1, character: 0 },
            kind: ScopeKind::Function,
            name: None,
        },
        kind,
        mod_path: mod_path.to_string(),
        file_path: file.to_string(),
        extended_scope: None,
    }
}

fn strings(v: &[&str]) -> Vec<String> {
    v.iter().map(|s| s.to_string()).collect()
}

#[test]
fn shebang_arguments_drop_env_and_cargo() {
    assert_eq!(parse_shebang_args("#!/usr/bin/env -S cargo +nightly -Zscript"), strings(&["+nightly", "-Zscript"]));
    assert_eq!(parse_shebang_args("#!/usr/bin/env rust-script"), strings(&["rust-script"]));
    assert_eq!(parse_shebang_args("#!rust-script --debug"), strings(&["rust-script", "--debug"]));
    assert_eq!(parse_shebang_args("// not a shebang"), Vec::<String>::new());
    assert_eq!(shebang_of(Some("#!/usr/bin/env rust-script")), "#!/usr/bin/env rust-script");
    assert_eq!(shebang_of(Some("fn main() {}")), "#!/usr/bin/env -S cargo +nightly -Zscript");
    assert_eq!(shebang_of(None), "#!/usr/bin/env -S cargo +nightly -Zscript");
}

#[test]
fn scripts_run_with_the_tool_their_shebang_names() {
    let config = FileConfig::default();
    let run = runnable(RunnableKind::SingleFileScript { shebang: String::new() }, "", "my_script.rs");
    let cargo = SingleFileScriptBuilder::build(&run, &config, FileType::SingleFileScript, "#!/usr/bin/env -S cargo +nightly -Zscript").unwrap();
    assert_eq!(cargo.command_type, CommandType::Cargo);
    assert_eq!(cargo.to_shell_command(), "cargo +nightly -Zscript my_script.rs");

    let run = runnable(RunnableKind::Binary { bin_name: None }, "", "my_rust_script.rs");
    let tool = SingleFileScriptBuilder::build(&run, &config, FileType::SingleFileScript, "#!/usr/bin/env rust-script").unwrap();
    assert_eq!(tool.command_type, CommandType::Shell);
    assert_eq!(tool.to_shell_command(), "rust-script my_rust_script.rs");
}

#[test]
fn script_tests_run_with_the_script_as_manifest() {
    let config = FileConfig {
        single_file_script: Some(SingleFileScriptConfig {
            extra_args: Some(strings(&["--quiet"])),
            extra_env: Some(vec![("RUST_LOG".to_string(), "debug".to_string())]),
            extra_test_binary_args: None,
        }),
        ..Default::default()
    };
    let run = runnable(RunnableKind::Test { test_name: "it_works".into(), is_async: false }, "", "s.rs");
    let cmd = SingleFileScriptBuilder::build(&run, &config, FileType::SingleFileScript, "#!").unwrap();
    assert_eq!(
        cmd.args,
        strings(&["+nightly", "-Zscript", "test", "--manifest-path", "s.rs", "--quiet", "--", "it_works"])
    );
    assert_eq!(cmd.env, vec![("RUST_LOG".to_string(), "debug".to_string())]);

    let doc = runnable(RunnableKind::DocTest { struct_or_module_name: "X".into(), method_name: None }, "", "s.rs");
    match SingleFileScriptBuilder::build(&doc, &config, FileType::SingleFileScript, "#!") {
        Err(Error::ParseError(m)) => assert_eq!(m, "Unsupported runnable type for single file script"),
        other => panic!("unexpected: {:?}", other),
    }
}

#[test]
fn rustc_builds_tests_and_binaries_of_standalone_files() {
    let over = FileOverride {
        identity: FunctionIdentity { file_path: Some("/tmp/x.rs".into()), ..Default::default() },
        rustc: Some(cargo_runner_core::command::file_builder::ToolSettings {
            extra_args: Some(strings(&["-O"])),
            extra_env: None,
        }),
        ..Default::default()
    };
    let config = FileConfig { overrides: vec![over], ..Default::default() };
    let t = runnable(RunnableKind::Test { test_name: "a".into(), is_async: false }, "", "/tmp/x.rs");
    let cmd = RustcCommandBuilder::build(&t, &config, FileType::Standalone).unwrap();
    assert_eq!(cmd.command_type, CommandType::Rustc);
    assert_eq!(cmd.args, strings(&["--test", "/tmp/x.rs", "-o", "x_test", "-O"]));
    assert_eq!(cmd.test_filter, Some("a".to_string()));

    let b = runnable(RunnableKind::Binary { bin_name: None }, "", "/tmp/y.rs");
    let cmd = RustcCommandBuilder::build(&b, &config, FileType::Standalone).unwrap();
    assert_eq!(cmd.args, strings(&["/tmp/y.rs", "-o", "y"]));

    let bench = runnable(RunnableKind::Benchmark { bench_name: "b".into() }, "", "/tmp/y.rs");
    match RustcCommandBuilder::build(&bench, &config, FileType::Standalone) {
        Err(Error::ParseError(m)) => assert_eq!(m, "Unsupported runnable type for rustc"),
        other => panic!("unexpected: {:?}", other),
    }
}

#[test]
fn test_targets_follow_the_file_place() {
    let cases = [
        ("/p/tests/api.rs", Some("pkg"), vec!["--test", "api"]),
        ("/p/src/lib.rs", Some("pkg"), vec!["--lib"]),
        ("src/util/mod.rs", None, vec!["--lib"]),
        ("/p/examples/demo.rs", Some("pkg"), vec!["--example", "demo"]),
        ("/p/src/main.rs", Some("pkg"), vec!["--bin", "pkg"]),
        ("/p/src/bin/tool.rs", Some("pkg"), vec!["--bin", "tool"]),
        ("/p/build.rs", Some("pkg"), vec![]),
    ];
    for (file, pkg, want) in cases {
        let mut args = Vec::new();
        TestCommandBuilder::add_target(&mut args, file, pkg);
        assert_eq!(args, strings(&want), "{file}");
    }
}

#[test]
fn cargo_test_command_for_a_library_test() {
    let config = FileConfig {
        cargo: Some(CargoConfig {
            channel: Some("nightly".into()),
            extra_args: Some(strings(&["--features", "x"])),
            extra_test_binary_args: Some(strings(&["--nocapture"])),
            ..Default::default()
        }),
        ..Default::default()
    };
    let t = runnable(RunnableKind::Test { test_name: "adds".into(), is_async: false }, "math", "/p/src/math.rs");
    let cmd = TestCommandBuilder::build(&t, Some("pkg"), &config, FileType::CargoProject, Some("/p")).unwrap();
    assert_eq!(
        cmd.args,
        strings(&[
            "+nightly", "test", "--package", "pkg", "--lib", "--features", "x", "--", "math::adds", "--exact",
            "--nocapture",
        ])
    );
    assert_eq!(cmd.working_dir, Some("/p".to_string()));
}

#[test]
fn doc_test_names_drop_the_package() {
    assert_eq!(rustdoc_module_prefix("my-crate::nested", Some("my-crate"), "Item"), "nested");
    assert_eq!(rustdoc_module_prefix("my_crate::nested", Some("my-crate"), "Item"), "nested");
    assert_eq!(rustdoc_module_prefix("my_crate", Some("my-crate"), "Item"), "");
    assert_eq!(rustdoc_module_prefix("nested::Item", None, "nested::Item"), "");
    assert_eq!(rustdoc_module_prefix("", Some("p"), "Item"), "");

    let config = FileConfig::default();
    let d = runnable(
        RunnableKind::DocTest { struct_or_module_name: "impl Parser".into(), method_name: Some("parse".into()) },
        "my_crate::text",
        "/p/src/text.rs",
    );
    let cmd = DocTestCommandBuilder::build(&d, Some("my-crate"), &config, FileType::CargoProject, None).unwrap();
    assert_eq!(cmd.args, strings(&["test", "--doc", "--package", "my-crate", "--", "text::Parser::parse"]));
}

#[test]
fn bench_and_run_commands() {
    let config = FileConfig::default();
    let b = runnable(RunnableKind::Benchmark { bench_name: "fast".into() }, "", "/p/benches/speed.rs");
    let cmd = BenchmarkCommandBuilder::build(&b, Some("pkg"), &config, FileType::CargoProject, None).unwrap();
    assert_eq!(cmd.args, strings(&["bench", "--package", "pkg", "--", "fast"]));

    let main = runnable(RunnableKind::Binary { bin_name: None }, "", "/p/src/main.rs");
    let cmd = BinaryCommandBuilder::build(&main, Some("pkg"), Some("/p")).unwrap();
    assert_eq!(cmd.args, strings(&["run", "--package", "pkg", "--bin", "pkg"]));
    let ex = runnable(RunnableKind::Binary { bin_name: None }, "", "/p/examples/demo.rs");
    let cmd = BinaryCommandBuilder::build(&ex, None, None).unwrap();
    assert_eq!(cmd.args, strings(&["run", "--example", "demo"]));
}

#[test]
fn the_kind_of_file_chooses_the_builder() {
    let config = FileConfig::default();
    let doc = runnable(RunnableKind::DocTest { struct_or_module_name: "X".into(), method_name: None }, "", "/t/x.rs");
    match CommandBuilder::build_for_file_type(&doc, None, &config, FileType::Standalone, "#!", None) {
        Err(Error::ParseError(m)) => assert_eq!(m, "Doc tests are not supported in standalone files"),
        other => panic!("unexpected: {:?}", other),
    }
    let bin = runnable(RunnableKind::Binary { bin_name: None }, "", "/t/x.rs");
    let cmd = CommandBuilder::build_for_file_type(&bin, None, &config, FileType::Standalone, "#!", None).unwrap();
    assert_eq!(cmd.command_type, CommandType::Rustc);
    let cmd = CommandBuilder::build_for_file_type(&bin, None, &config, FileType::SingleFileScript, "#!/usr/bin/env rust-script", None).unwrap();
    assert_eq!(cmd.to_shell_command(), "rust-script /t/x.rs");
    let cmd = CommandBuilder::build_for_file_type(&bin, Some("pkg"), &config, FileType::CargoProject, "#!", None).unwrap();
    assert_eq!(cmd.args, strings(&["run", "--package", "pkg", "--bin", "x"]));
}
