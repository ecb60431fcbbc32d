use cargo_runner_core::entities::{CargoRunner, CommandType, Config, Context};
use cargo_runner_core::error::Error;

fn dx() -> Config {
    Config {
        name: "dx".to_string(),
        command_type: Some(CommandType::Shell),
        command: Some("dx".to_string()),
        sub_command: Some("serve".to_string()),
        allowed_subcommands: Some(vec!["build".to_string(), "serve".to_string()]),
        env: None,
    }
}

fn runner_with_dx_default() -> CargoRunner {
    CargoRunner(vec![("run".to_string(), (Some("dx".to_string()), Some(vec![dx()])))])
}

fn configs_of<'a>(r: &'a CargoRunner, key: &str) -> Option<&'a (Option<String>, Option<Vec<Config>>)> {
    r.0.iter().find(|(k, _)| k == key).map(|(_, v)| v)
}

#[test]
fn test_default_commands() {
    let config = CargoRunner::default();

    // Test run command default
    assert_eq!(config.get_default(Context::Run), Some("default"));

    // Test setting new default
    let mut config = CargoRunner::default();
    config
        .0
        .iter_mut()
        .find(|(k, _)| k == "run")
        .unwrap()
        .1
         .1
        .as_mut()
        .unwrap()
        .push(Config {
            name: "dx".to_string(),
            command_type: Some(CommandType::Shell),
            command: Some("dx".to_string()),
            sub_command: Some("serve".to_string()),
            allowed_subcommands: Some(vec![]),
            env: Some(vec![]),
        });

    assert!(config.set_default(Context::Run, "dx").is_ok());
    assert_eq!(config.get_default(Context::Run), Some("dx"));
}

#[test]
fn test_merge_configs() {
    let mut base_config = CargoRunner::default();
    let dx_config = runner_with_dx_default();

    base_config.merge(dx_config).unwrap();

    let (default, run_configs) = configs_of(&base_config, "run").expect("Run config should exist");
    let run_configs = run_configs.as_ref().expect("Run config should have values");

    assert_eq!(run_configs.len(), 2);
    assert_eq!(default.as_ref().map(String::as_str), Some("dx"));

    let dx_config = run_configs.iter().find(|c| c.name == "dx").expect("dx config should exist");

    assert_eq!(dx_config.command, Some("dx".to_string()));
    assert_eq!(dx_config.sub_command, Some("serve".to_string()));
    assert!(matches!(dx_config.command_type, Some(CommandType::Shell)));

    let default_config = run_configs
        .iter()
        .find(|c| c.name == "default")
        .expect("default config should exist");

    assert_eq!(default_config.command, Some("cargo".to_string()));
    assert_eq!(default_config.sub_command, Some("run".to_string()));
    assert_eq!(default_config.command_type, Some(CommandType::Cargo));
}

#[test]
fn defaults_cover_the_four_contexts() {
    let r = CargoRunner::default();
    let keys: Vec<&str> = r.0.iter().map(|(k, _)| k.as_str()).collect();
    assert_eq!(keys, vec!["run", "test", "build", "bench"]);
    for ctx in [Context::Run, Context::Test, Context::Build, Context::Bench] {
        assert_eq!(r.get_default(ctx), Some("default"));
        let c = r.find(ctx, "default").unwrap();
        assert_eq!(c.sub_command.as_deref(), Some(ctx.as_str()));
        assert_eq!(c.command.as_deref(), Some("cargo"));
    }
}

#[test]
fn set_default_needs_a_configuration_of_that_name() {
    let mut r = CargoRunner::default();
    let err = r.set_default(Context::Test, "nextest");
    assert!(matches!(err, Err(Error::SetDefault(ref k)) if k == "test"));
    assert_eq!(r.get_default(Context::Test), Some("default"));
    let mut empty = CargoRunner(vec![]);
    assert!(empty.set_default(Context::Run, "default").is_err());
    assert_eq!(empty.get_default(Context::Run), None);
}

#[test]
fn collect_and_pluck_take_the_same_configurations() {
    let mut r = CargoRunner::default();
    r.merge(runner_with_dx_default()).unwrap();
    let gathered = r.collect("dx").unwrap();
    assert_eq!(gathered.0.len(), 1);
    assert_eq!(gathered.0[0].0, "run");
    assert_eq!(gathered.0[0].1 .0.as_deref(), Some("dx"));
    assert!(r.collect("missing").is_none());

    let plucked = r.pluck("dx");
    assert_eq!(plucked.0.len(), 1);
    assert_eq!(plucked.0[0].1 .1.as_ref().unwrap()[0].name, "dx");
    assert!(r.find(Context::Run, "dx").is_none());
    // the run context falls back to `default`
    assert_eq!(r.get_default(Context::Run), Some("default"));
    assert!(r.find(Context::Run, "default").is_some());
}

#[test]
fn plucking_the_only_configuration_removes_the_context() {
    let mut r = runner_with_dx_default();
    let plucked = r.pluck("dx");
    assert_eq!(plucked.0.len(), 1);
    assert!(r.0.is_empty());
    assert_eq!(r.get_default(Context::Run), None);
}

#[test]
fn merge_rejects_an_unknown_default_and_merges_same_names() {
    let mut r = CargoRunner::default();
    let bad = CargoRunner(vec![("bench".to_string(), (Some("criterion".to_string()), Some(vec![])))]);
    match r.merge(bad) {
        Err(Error::Other(m)) => {
            assert_eq!(m, "Default command 'criterion' does not exist in the 'bench' commands.")
        }
        other => panic!("unexpected {other:?}"),
    }

    let mut r = CargoRunner::default();
    let update = CargoRunner(vec![(
        "test".to_string(),
        (
            None,
            Some(vec![Config {
                name: "default".to_string(),
                command_type: None,
                command: None,
                sub_command: Some("nextest".to_string()),
                allowed_subcommands: None,
                env: Some(vec![("RUST_LOG".to_string(), "debug".to_string())]),
            }]),
        ),
    )]);
    r.merge(update).unwrap();
    let c = r.find(Context::Test, "default").unwrap();
    assert_eq!(c.sub_command.as_deref(), Some("nextest"));
    assert_eq!(c.command.as_deref(), Some("cargo"));
    assert_eq!(c.env, Some(vec![("RUST_LOG".to_string(), "debug".to_string())]));
    assert_eq!(r.get_default(Context::Test), Some("default"));
}

#[test]
fn configs_of_other_names_do_not_merge() {
    let mut a = dx();
    let b = Config { name: "other".to_string(), command: Some("x".to_string()), ..dx() };
    assert!(matches!(a.merge(&b), Err(Error::MergeConflict(_, _))));
    assert_eq!(a.command.as_deref(), Some("dx"));
}

#[test]
fn set_default_to_a_missing_name_is_the_set_default_error() {
    let mut config = CargoRunner::default();
    match config.set_default(Context::Test, "missing") {
        Err(cargo_runner_core::error::Error::SetDefault(k)) => assert_eq!(k, "test"),
        other => panic!("unexpected: {:?}", other),
    }
    assert_eq!(config.get_default(Context::Test), Some("default"));
}
