use cargo_runner_core::config::override_manager::{OverrideManager, ParsedOverride};

fn args(tokens: &[&str]) -> Vec<String> {
    tokens.iter().map(|s| (*s).to_string()).collect()
}

fn parse(tokens: &[&str]) -> ParsedOverride {
    OverrideManager::parse_override_args(&args(tokens))
}

fn env_value<'a>(p: &'a ParsedOverride, key: &str) -> Option<&'a str> {
    p.extra_env
        .as_ref()
        .and_then(|e| e.iter().find(|(k, _)| k == key).map(|(_, v)| v.as_str()))
}

#[test]
fn parses_command_channel_env_and_extra_args() {
    let parsed = parse(&["@dx.serve", "+nightly", "RUST_LOG=debug", "--release"]);
    assert_eq!(parsed.command.as_deref(), Some("dx"));
    assert_eq!(parsed.subcommand.as_deref(), Some("serve"));
    assert_eq!(parsed.channel.as_deref(), Some("nightly"));
    assert_eq!(env_value(&parsed, "RUST_LOG"), Some("debug"));
    assert_eq!(parsed.extra_args.as_ref().map(|a| a.len()), Some(1));
}

#[test]
fn hash_is_legacy_alias_for_test_binary_args() {
    let slash = parse(&["/--nocapture", "--exact"]);
    let hash = parse(&["#--nocapture", "--exact"]);
    assert_eq!(slash.extra_test_binary_args, hash.extra_test_binary_args);
    let bare_hash = parse(&["#", "--nocapture"]);
    assert_eq!(
        bare_hash.extra_test_binary_args,
        Some(vec!["--nocapture".to_string()])
    );
}

#[test]
fn bang_bang_and_dash_remove_override() {
    let bang = parse(&["!!"]);
    let dash = parse(&["-"]);
    assert!(bang.remove_override);
    assert!(dash.remove_override);
}

#[test]
fn bare_at_enables_append_mode() {
    let parsed = parse(&["@", "--release"]);
    assert!(parsed.append);
    assert!(parsed.extra_args.is_some());
}

#[test]
fn legacy_bang_resets_map_to_remove_flags() {
    let parsed = parse(&["!env", "!#"]);
    assert!(parsed.remove_env);
    assert!(parsed.remove_test_args);
}

#[test]
fn removal_hides_every_other_field() {
    let parsed = parse(&["@dx.serve", "+nightly", "!!", "RUST_LOG=debug"]);
    assert!(parsed.remove_override);
    assert_eq!(parsed.command, None);
    assert_eq!(parsed.channel, None);
    assert_eq!(parsed.extra_env, None);
    assert!(!parsed.append);
}

#[test]
fn cargo_commands_set_only_the_subcommand_and_dots_become_spaces() {
    let parsed = parse(&["@cargo.nextest.run"]);
    assert_eq!(parsed.command, None);
    assert_eq!(parsed.subcommand.as_deref(), Some("nextest run"));
    let plain = parse(&["@cargo"]);
    assert_eq!(plain.command.as_deref(), Some("cargo"));
    assert_eq!(plain.subcommand, None);
    let empty = parse(&["@.serve"]);
    assert_eq!(empty.command, None);
    assert_eq!(empty.subcommand, None);
}

#[test]
fn bare_at_later_is_ignored() {
    let parsed = parse(&["--release", "@"]);
    assert!(!parsed.append);
    assert_eq!(parsed.extra_args, Some(vec!["--release".to_string()]));
}

#[test]
fn value_and_removal_of_a_field_cancel() {
    let parsed = parse(&["@dx", "-cmd"]);
    assert_eq!(parsed.command, None);
    assert!(!parsed.remove_command);
    let only_removal = parse(&["-command", "-sub", "-ch"]);
    assert!(only_removal.remove_command);
    assert!(only_removal.remove_subcommand);
    assert!(only_removal.remove_channel);
}

#[test]
fn list_removals_are_always_reported() {
    let parsed = parse(&["--release", "-arg", "A=1", "-env", "/x", "!/"]);
    assert!(parsed.remove_args);
    assert_eq!(parsed.extra_args, None);
    assert!(parsed.remove_env);
    assert_eq!(parsed.extra_env, None);
    // `!/` comes after `/x`, so it is a test argument and not a reset.
    assert!(!parsed.remove_test_args);
    assert_eq!(
        parsed.extra_test_binary_args,
        Some(vec!["x".to_string(), "!/".to_string()])
    );
}

#[test]
fn env_tokens_follow_the_name_rule() {
    let parsed = parse(&["RUST_LOG=a=b", "RUST_LOG=c", "Rust_log=x", "=v", "-RUST_LOG", "-lower"]);
    assert_eq!(parsed.extra_env, Some(vec![("RUST_LOG".to_string(), "c".to_string())]));
    assert_eq!(parsed.extra_args, Some(vec!["Rust_log=x".to_string()]));
    assert_eq!(parsed.remove_env_keys, Some(vec!["RUST_LOG".to_string()]));
}

#[test]
fn env_names_use_the_unicode_uppercase_property() {
    let parsed = parse(&["ÉTAT=1", "-ÄÖ", "é=2"]);
    assert_eq!(parsed.extra_env, Some(vec![("ÉTAT".to_string(), "1".to_string())]));
    assert_eq!(parsed.remove_env_keys, Some(vec!["ÄÖ".to_string()]));
    assert_eq!(parsed.extra_args, Some(vec!["é=2".to_string()]));
}

#[test]
fn unknown_bang_tokens_are_extra_args() {
    let parsed = parse(&["!foo", "!", "--", "-x"]);
    assert_eq!(
        parsed.extra_args,
        Some(vec!["!foo".to_string(), "!".to_string(), "--".to_string()])
    );
    assert_eq!(parsed.remove_env_keys, None);
}

#[test]
fn empty_token_list_asks_for_nothing() {
    let parsed = parse(&[]);
    assert!(!parsed.remove_override && !parsed.append);
    assert_eq!(parsed.command, None);
    assert_eq!(parsed.extra_args, None);
    assert_eq!(parsed.extra_test_binary_args, None);
}
