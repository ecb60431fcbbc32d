//! Cargo settings and settings for single-file scripts.
use vstd::prelude::*;

verus! {

/// Settings for cargo commands.
#[derive(Debug, Default)]
pub struct CargoConfig {
    pub command: Option<String>,
    pub subcommand: Option<String>,
    pub channel: Option<String>,
    pub extra_args: Option<Vec<String>>,
    pub extra_env: Option<Vec<(String, String)>>,
    pub extra_test_binary_args: Option<Vec<String>>,
    pub linked_projects: Option<Vec<String>>,
    pub package: Option<String>,
}

/// Settings for single-file scripts.
#[derive(Debug, Default)]
pub struct SingleFileScriptConfig {
    pub extra_args: Option<Vec<String>>,
    pub extra_env: Option<Vec<(String, String)>>,
    pub extra_test_binary_args: Option<Vec<String>>,
}

} // verus!
