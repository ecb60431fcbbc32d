use cargo_runner_core::build_system::BuildSystem;
use cargo_runner_core::config::v2::builder::{ConfigBuilder, LayerConfigExt};
use cargo_runner_core::config::v2::registry::{Strategy, StrategyRegistry, StrategyRegistryBuilder};
use cargo_runner_core::config::v2::scope::Scope;
use cargo_runner_core::config::v2::strategy::{CargoTestStrategy, FrameworkKind, FrameworkStrategy};
use cargo_runner_core::config::v2::Config;
use cargo_runner_core::build_system::PathFacts;

#[test]
fn test_builder_basic() {
    let config = ConfigBuilder::new()
        .workspace(|w| {
            w.build_system(BuildSystem::Cargo)
                .framework_test("cargo-test")
                .args_test(vec!["--nocapture".into()])
                .env("RUST_LOG", "info");
        })
        .build();

    assert_eq!(config.layers().len(), 1);
    assert!(matches!(config.layers()[0].scope, Scope::Workspace));
}

#[test]
fn test_builder_multiple_layers() {
    let config = ConfigBuilder::new()
        .workspace(|w| {
            w.build_system(BuildSystem::Cargo).framework_test("cargo-test");
        })
        .crate_override("my-crate", |c| {
            c.framework_test("cargo-nextest");
        })
        .file_override("src/bin/app.rs", |f| {
            f.framework_binary("dioxus-serve");
        })
        .build();

    assert_eq!(config.layers().len(), 3);

    assert!(matches!(config.layers()[0].scope, Scope::Workspace));
    assert!(matches!(config.layers()[1].scope, Scope::Crate(_)));
    assert!(matches!(config.layers()[2].scope, Scope::File(_)));

    assert_eq!(config.layers()[0].config.frameworks.test.as_deref(), Some("cargo-test"));
    assert_eq!(config.layers()[1].config.frameworks.test.as_deref(), Some("cargo-nextest"));
    assert_eq!(config.layers()[2].config.frameworks.binary.as_deref(), Some("dioxus-serve"));
}

#[test]
fn test_builder_complex() {
    let config = ConfigBuilder::new()
        .workspace(|w| {
            w.build_system(BuildSystem::Cargo)
                .framework_test("cargo-test")
                .framework_binary("cargo-run")
                .framework_benchmark("cargo-bench")
                .args_all(vec!["--verbose".into()])
                .env("RUST_LOG", "info");
        })
        .module_override("tests", |m| {
            m.framework_test("cargo-nextest")
                .args_test(vec!["--nocapture".into()])
                .env("RUST_BACKTRACE", "1");
        })
        .function_override("test_complex", |f| {
            f.args_test_binary(vec!["--test-threads=1".into()]).env("RUST_LOG", "debug");
        })
        .build();

    assert_eq!(config.layers().len(), 3);

    assert_eq!(config.layers()[0].scope.specificity(), 0);
    assert_eq!(config.layers()[1].scope.specificity(), 3);
    assert_eq!(config.layers()[2].scope.specificity(), 5);
}

#[test]
fn test_default_registry() {
    let registry = StrategyRegistry::new();

    assert!(registry.contains("cargo-test"));
    assert!(registry.contains("cargo-nextest"));
    assert!(registry.contains("cargo-run"));
    assert!(registry.contains("cargo-bench"));
}

#[test]
fn test_get_strategy() {
    let registry = StrategyRegistry::new();

    let strategy = registry.get("cargo-test").unwrap();
    assert_eq!(strategy.name(), "cargo-test");
    assert_eq!(strategy.framework_kind(), FrameworkKind::Test);
}

#[test]
fn test_custom_registry() {
    let registry = StrategyRegistryBuilder::new()
        .with_strategy(Strategy::CargoTest(CargoTestStrategy::new()))
        .build();

    assert!(registry.contains("cargo-test"));
    assert!(!registry.contains("cargo-nextest"));
}

#[test]
fn test_list_strategies() {
    let registry = StrategyRegistry::new();
    let strategies = registry.list_strategies();

    assert!(strategies.contains(&"cargo-test"));
    assert!(strategies.contains(&"cargo-nextest"));
    assert!(strategies.contains(&"cargo-run"));
    assert!(strategies.contains(&"cargo-bench"));
    assert!(strategies.contains(&"cargo-build"));
    assert!(strategies.contains(&"bazel-build"));
}

#[test]
fn registry_names_are_unique_and_registration_replaces() {
    let registry = StrategyRegistry::new();
    let names = registry.list_strategies();
    assert_eq!(names.len(), 20);
    let mut sorted = names.clone();
    sorted.sort();
    sorted.dedup();
    assert_eq!(sorted.len(), 20);
    assert_eq!(registry.get("dx-serve").unwrap().framework_kind(), FrameworkKind::Binary);
    assert!(registry.get("no-such-strategy").is_none());

    let defaults = StrategyRegistryBuilder::new().with_cargo_defaults().build();
    assert_eq!(defaults.list_strategies(), vec!["cargo-test", "cargo-nextest", "cargo-run", "cargo-bench", "cargo-doctest"]);

    let mut again = StrategyRegistryBuilder::new().with_cargo_defaults().build();
    again.register_strategy(Strategy::CargoTest(CargoTestStrategy::new()));
    assert_eq!(again.list_strategies().len(), 5);
}

#[test]
fn default_configs_per_build_system() {
    let config = Config::default_with_build_system();
    assert_eq!(config.layers_count(), 1);
    assert!(config.has_layers());
    let w = &config.layers()[0].config;
    assert_eq!(w.build_system, Some(BuildSystem::Cargo));
    assert_eq!(w.frameworks.doctest.as_deref(), Some("cargo-test"));
    assert_eq!(w.frameworks.build.as_deref(), Some("cargo-build"));

    let bazel = Config::default_with_detected_build_system(&PathFacts {
        has_build_bazel: true,
        has_build: false,
        has_cargo_toml: true,
        is_rust_file: false,
        ancestor_has_cargo_toml: false,
    });
    assert_eq!(bazel.layers()[0].config.build_system, Some(BuildSystem::Bazel));
    assert_eq!(bazel.layers()[0].config.frameworks.test.as_deref(), Some("bazel-test"));

    let lone = Config::default_with_detected_build_system(&PathFacts {
        has_build_bazel: false,
        has_build: false,
        has_cargo_toml: false,
        is_rust_file: true,
        ancestor_has_cargo_toml: false,
    });
    assert_eq!(lone.layers()[0].config.build_system, Some(BuildSystem::Rustc));
    assert_eq!(lone.layers()[0].config.frameworks.binary.as_deref(), Some("rustc-run"));
    assert_eq!(lone.layers()[0].config.frameworks.benchmark, None);

    let none = Config::default_with_detected_build_system(&PathFacts {
        has_build_bazel: false,
        has_build: false,
        has_cargo_toml: false,
        is_rust_file: false,
        ancestor_has_cargo_toml: false,
    });
    assert_eq!(none.layers()[0].config.build_system, Some(BuildSystem::Cargo));
}

#[test]
fn merging_configs_appends_layers_and_keeps_linked_projects() {
    let mut a = ConfigBuilder::new()
        .workspace(|w| {
            w.build_system(BuildSystem::Cargo);
        })
        .build();
    let mut b = ConfigBuilder::new()
        .crate_override("x", |c| {
            c.framework_test("cargo-nextest");
        })
        .build();
    b.linked_projects = Some(vec!["a/Cargo.toml".into()]);
    a.merge(b);
    assert_eq!(a.layers_count(), 2);
    assert!(matches!(a.layers()[1].scope, Scope::Crate(_)));
    assert_eq!(a.linked_projects, Some(vec!["a/Cargo.toml".to_string()]));

    let mut c = ConfigBuilder::new().build();
    c.linked_projects = Some(vec!["first".into()]);
    let mut d = ConfigBuilder::new().build();
    d.linked_projects = Some(vec!["second".into()]);
    c.merge(d);
    assert_eq!(c.linked_projects, Some(vec!["first".to_string()]));
    assert!(!c.has_layers());
}
