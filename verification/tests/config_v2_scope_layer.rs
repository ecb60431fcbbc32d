use cargo_runner_core::config::v2::layer::{ConfigLayer, LayerConfig};
use cargo_runner_core::config::v2::scope::{Scope, ScopeContext};

#[test]
fn test_scope_specificity() {
    assert!(Scope::Workspace.specificity() < Scope::Crate("test".into()).specificity());
    assert!(Scope::Crate("test".into()).specificity() < Scope::File("test.rs".into()).specificity());
    assert!(Scope::File("test.rs".into()).specificity() < Scope::Module("test".into()).specificity());
    assert!(Scope::Module("test".into()).specificity() < Scope::Function("test".into()).specificity());
}

#[test]
fn test_scope_matching() {
    let context = ScopeContext::new()
        .with_crate("my-crate".into())
        .with_file("src/lib.rs".into())
        .with_module("tests".into())
        .with_function("test_something".into());

    assert!(Scope::Workspace.matches(&context));
    assert!(Scope::Crate("my-crate".into()).matches(&context));
    assert!(Scope::File("src/lib.rs".into()).matches(&context));
    assert!(Scope::Module("tests".into()).matches(&context));
    assert!(Scope::Function("test_something".into()).matches(&context));

    assert!(!Scope::Crate("other-crate".into()).matches(&context));
    assert!(!Scope::Function("other_function".into()).matches(&context));
}

#[test]
fn test_file_suffix_matching() {
    let context = ScopeContext::new().with_file("/home/user/project/src/lib.rs".into());

    assert!(Scope::File("src/lib.rs".into()).matches(&context));
    assert!(Scope::File("lib.rs".into()).matches(&context));

    assert!(!Scope::File("main.rs".into()).matches(&context));
}

#[test]
fn test_module_prefix_matching() {
    let context = ScopeContext::new().with_module("parser::tests::unit".into());

    assert!(Scope::Module("parser".into()).matches(&context));
    assert!(Scope::Module("parser::tests".into()).matches(&context));
    assert!(Scope::Module("parser::tests::unit".into()).matches(&context));

    assert!(!Scope::Module("lexer".into()).matches(&context));
}

#[test]
fn test_function_matching_with_module_path() {
    let context1 = ScopeContext::new().with_function("test_user".into());
    assert!(Scope::Function("test_user".into()).matches(&context1));
    assert!(!Scope::Function("test_admin".into()).matches(&context1));

    let context2 = ScopeContext::new()
        .with_module("tests".into())
        .with_function("test_user".into());

    assert!(Scope::Function("test_user".into()).matches(&context2));
    assert!(Scope::Function("tests::test_user".into()).matches(&context2));
    assert!(!Scope::Function("auth::test_user".into()).matches(&context2));

    let context3 = ScopeContext::new()
        .with_module("auth::tests".into())
        .with_function("test_user".into());

    assert!(Scope::Function("test_user".into()).matches(&context3));
    assert!(Scope::Function("auth::tests::test_user".into()).matches(&context3));
    assert!(!Scope::Function("tests::test_user".into()).matches(&context3));
}

#[test]
fn file_scope_globs_and_missing_file() {
    let context = ScopeContext::new().with_file("examples/leptos_app.rs".into());
    assert!(Scope::File("examples/leptos_*.rs".into()).matches(&context));
    assert!(!Scope::File("examples/dioxus_*.rs".into()).matches(&context));
    assert!(!Scope::File("lib.rs".into()).matches(&ScopeContext::new()));
    // A module name must end at a `::` boundary.
    let context = ScopeContext::new().with_module("parsers".into());
    assert!(!Scope::Module("parser".into()).matches(&context));
}

#[test]
fn test_layer_matching() {
    let layer = ConfigLayer::new(Scope::Crate("my-crate".into()), LayerConfig::new());

    let context = ScopeContext::new().with_crate("my-crate".into());
    assert!(layer.matches(&context));

    let other_context = ScopeContext::new().with_crate("other-crate".into());
    assert!(!layer.matches(&other_context));
}

#[test]
fn test_layer_config_merge() {
    let mut base = LayerConfig::new()
        .with_test_framework("cargo-test")
        .with_test_args(vec!["--nocapture".into()])
        .with_env("RUST_LOG", "info");

    let override_config = LayerConfig::new()
        .with_test_framework("cargo-nextest")
        .with_test_args(vec!["--no-fail-fast".into()])
        .with_env("RUST_LOG", "debug")
        .with_env("RUST_BACKTRACE", "1");

    base.apply(&override_config);

    assert_eq!(base.frameworks.test.as_deref(), Some("cargo-nextest"));

    assert_eq!(base.args.test.as_ref().unwrap().len(), 2);
    assert!(base.args.test.as_ref().unwrap().contains(&"--nocapture".into()));
    assert!(base.args.test.as_ref().unwrap().contains(&"--no-fail-fast".into()));

    assert_eq!(base.env.get("RUST_LOG").unwrap(), "debug");
    assert_eq!(base.env.get("RUST_BACKTRACE").unwrap(), "1");
}

#[test]
fn layer_apply_orders_lists_and_keeps_unset_values() {
    let mut base = LayerConfig::new().with_test_framework("cargo-test").with_binary_framework("cargo-run");
    base.args.test_binary = Some(vec!["--a".into()]);
    let mut top = LayerConfig::new().with_test_args(vec!["--x".into()]);
    top.args.test_binary = Some(vec!["--b".into()]);
    base.apply(&top);
    // A layer that names no strategy leaves the names as they were.
    assert_eq!(base.frameworks.test.as_deref(), Some("cargo-test"));
    assert_eq!(base.frameworks.binary.as_deref(), Some("cargo-run"));
    // Test arguments extend; test binary arguments of the newer layer come first.
    assert_eq!(base.args.test, Some(vec!["--x".to_string()]));
    assert_eq!(base.args.test_binary, Some(vec!["--b".to_string(), "--a".to_string()]));
    // Setting a variable twice keeps one entry.
    let layer = LayerConfig::new().with_env("K", "1").with_env("K", "2");
    assert_eq!(layer.env.vars.len(), 1);
    assert_eq!(layer.env.get("K").unwrap(), "2");
    assert_eq!(layer.env.get("MISSING"), None);
}
