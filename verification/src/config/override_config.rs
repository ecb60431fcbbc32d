//! Per-function overrides of the runner's settings.
use vstd::prelude::*;
use crate::env::EnvView;
use crate::config::test_framework::{TestFramework, FrameworkView, opt_framework_view};
use crate::types::{FunctionIdentity, IdentityView, opt_view, opt_strings_view};

verus! {

/// Settings for the functions an identity pattern matches.
#[derive(Debug)]
pub struct Override {
    pub identity: FunctionIdentity,
    pub command: Option<String>,
    pub subcommand: Option<String>,
    pub channel: Option<String>,
    pub extra_args: Option<Vec<String>>,
    pub extra_test_binary_args: Option<Vec<String>>,
    pub test_framework: Option<TestFramework>,
    pub force_replace_args: Option<bool>,
    pub extra_env: Option<Vec<(String, String)>>,
    pub force_replace_env: Option<bool>,
}

/// An override as values.
pub struct OverrideView {
    pub identity: IdentityView,
    pub command: Option<Seq<char>>,
    pub subcommand: Option<Seq<char>>,
    pub channel: Option<Seq<char>>,
    pub extra_args: Option<Seq<Seq<char>>>,
    pub extra_test_binary_args: Option<Seq<Seq<char>>>,
    pub test_framework: Option<FrameworkView>,
    pub force_replace_args: Option<bool>,
    pub extra_env: Option<EnvView>,
    pub force_replace_env: Option<bool>,
}

/// The pairs of an optional list of variables.
pub open spec fn opt_env_view(o: Option<Vec<(String, String)>>) -> Option<EnvView> {
    match o {
        Some(v) => Some(v.deep_view()),
        None => None,
    }
}

impl View for Override {
    type V = OverrideView;

    open spec fn view(&self) -> OverrideView {
        OverrideView {
            identity: self.identity@,
            command: opt_view(self.command),
            subcommand: opt_view(self.subcommand),
            channel: opt_view(self.channel),
            extra_args: opt_strings_view(self.extra_args),
            extra_test_binary_args: opt_strings_view(self.extra_test_binary_args),
            test_framework: opt_framework_view(self.test_framework),
            force_replace_args: self.force_replace_args,
            extra_env: opt_env_view(self.extra_env),
            force_replace_env: self.force_replace_env,
        }
    }
}

impl Default for Override {
    fn default() -> (r: Self)
        ensures
            r.identity.package is None && r.identity.mod_path is None,
            r.identity.file_path is None && r.identity.function_name is None,
            r.command is None && r.subcommand is None && r.channel is None,
            r.extra_args is None && r.extra_test_binary_args is None && r.test_framework is None,
            r.force_replace_args is None && r.extra_env is None && r.force_replace_env is None,
    {
        Override {
            identity: FunctionIdentity { package: None, mod_path: None, file_path: None, function_name: None },
            command: None,
            subcommand: None,
            channel: None,
            extra_args: None,
            extra_test_binary_args: None,
            test_framework: None,
            force_replace_args: None,
            extra_env: None,
            force_replace_env: None,
        }
    }
}

} // verus!
