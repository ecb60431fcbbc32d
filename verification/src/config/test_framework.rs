//! A tool that takes the place of plain `cargo test` or `cargo run` in the
//! runner's settings (such as nextest, or `dx serve` for binaries).
use vstd::prelude::*;
use crate::command::cargo_command::clone_pairs;
use crate::config::override_config::opt_env_view;
use crate::env::EnvView;
use crate::types::{opt_view, opt_strings_view, clone_opt, clone_opt_strings};

verus! {

/// The program, subcommand, channel, arguments and variables of such a tool.
#[derive(Debug)]
pub struct TestFramework {
    pub command: Option<String>,
    pub subcommand: Option<String>,
    pub channel: Option<String>,
    pub extra_args: Option<Vec<String>>,
    pub env: Option<Vec<(String, String)>>,
}

/// A tool as values.
pub struct FrameworkView {
    pub command: Option<Seq<char>>,
    pub subcommand: Option<Seq<char>>,
    pub channel: Option<Seq<char>>,
    pub extra_args: Option<Seq<Seq<char>>>,
    pub env: Option<EnvView>,
}

impl View for TestFramework {
    type V = FrameworkView;

    open spec fn view(&self) -> FrameworkView {
        FrameworkView {
            command: opt_view(self.command),
            subcommand: opt_view(self.subcommand),
            channel: opt_view(self.channel),
            extra_args: opt_strings_view(self.extra_args),
            env: opt_env_view(self.env),
        }
    }
}

/// An optional tool as values.
pub open spec fn opt_framework_view(o: Option<TestFramework>) -> Option<FrameworkView> {
    match o {
        Some(f) => Some(f@),
        None => None,
    }
}

impl TestFramework {
    /// A copy of the tool, field by field.
    pub fn duplicate(&self) -> (r: TestFramework)
        ensures
            r@ == self@,
    {
        TestFramework {
            command: clone_opt(&self.command),
            subcommand: clone_opt(&self.subcommand),
            channel: clone_opt(&self.channel),
            extra_args: clone_opt_strings(&self.extra_args),
            env: match &self.env {
                Some(e) => Some(clone_pairs(e)),
                None => None,
            },
        }
    }
}

/// A copy of an optional tool.
pub fn copy_framework(o: &Option<TestFramework>) -> (r: Option<TestFramework>)
    ensures
        opt_framework_view(r) == opt_framework_view(*o),
{
    match o {
        Some(f) => Some(f.duplicate()),
        None => None,
    }
}

} // verus!
