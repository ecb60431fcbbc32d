//! One named command configuration: the program, its subcommand, the
//! subcommands it allows and its environment.
use vstd::prelude::*;
use crate::command::CommandType;
use crate::command::cargo_command::clone_pairs;
use crate::config::merge::or_else;
use crate::config::override_config::opt_env_view;
use crate::env::{EnvView, env_insert_all};
use crate::error::Error;
use crate::types::{opt_view, opt_strings_view, clone_opt, clone_opt_strings};

verus! {

/// A named way of running a command.
#[derive(Debug)]
pub struct Config {
    pub name: String,
    pub command_type: Option<CommandType>,
    pub command: Option<String>,
    pub sub_command: Option<String>,
    pub allowed_subcommands: Option<Vec<String>>,
    pub env: Option<Vec<(String, String)>>,
}

/// A configuration as values.
pub struct ConfigView {
    pub name: Seq<char>,
    pub command_type: Option<CommandType>,
    pub command: Option<Seq<char>>,
    pub sub_command: Option<Seq<char>>,
    pub allowed_subcommands: Option<Seq<Seq<char>>>,
    pub env: Option<EnvView>,
}

impl View for Config {
    type V = ConfigView;

    open spec fn view(&self) -> ConfigView {
        ConfigView {
            name: self.name@,
            command_type: self.command_type,
            command: opt_view(self.command),
            sub_command: opt_view(self.sub_command),
            allowed_subcommands: opt_strings_view(self.allowed_subcommands),
            env: opt_env_view(self.env),
        }
    }
}

/// `b` merged into `a`: each field `b` sets replaces `a`'s, and `b`'s
/// variables are set on top of `a`'s.
pub open spec fn merge_config_view(a: ConfigView, b: ConfigView) -> ConfigView {
    ConfigView {
        name: a.name,
        command_type: or_else(a.command_type, b.command_type),
        command: or_else(a.command, b.command),
        sub_command: or_else(a.sub_command, b.sub_command),
        allowed_subcommands: or_else(a.allowed_subcommands, b.allowed_subcommands),
        env: match (a.env, b.env) {
            (Some(x), Some(y)) => Some(env_insert_all(x, y)),
            (None, y) => y,
            (x, None) => x,
        },
    }
}

impl Config {
    /// A copy, field by field.
    pub fn duplicate(&self) -> (r: Config)
        ensures
            r@ == self@,
    {
        Config {
            name: self.name.clone(),
            command_type: self.command_type,
            command: clone_opt(&self.command),
            sub_command: clone_opt(&self.sub_command),
            allowed_subcommands: clone_opt_strings(&self.allowed_subcommands),
            env: match &self.env {
                Some(e) => Some(clone_pairs(e)),
                None => None,
            },
        }
    }

    /// Merges a configuration of the same name into this one; configurations
    /// of different names do not merge.
    pub fn merge(&mut self, other: &Config) -> (r: Result<(), Error>)
        ensures
            old(self)@.name == other@.name ==> r is Ok && final(self)@ == merge_config_view(old(self)@, other@),
            old(self)@.name != other@.name ==> r is Err && final(self)@ == old(self)@,
    {
        if !crate::strings::str_eq(self.name.as_str(), other.name.as_str()) {
            return Err(Error::MergeConflict(self.name.clone(), other.name.clone()));
        }
        if other.command_type.is_some() {
            self.command_type = other.command_type;
        }
        if other.command.is_some() {
            self.command = clone_opt(&other.command);
        }
        if other.sub_command.is_some() {
            self.sub_command = clone_opt(&other.sub_command);
        }
        if other.allowed_subcommands.is_some() {
            self.allowed_subcommands = clone_opt_strings(&other.allowed_subcommands);
        }
        match &other.env {
            Some(more) => {
                let merged = match &self.env {
                    Some(base) => {
                        let mut e = crate::config::v2::layer::EnvConfig { vars: clone_pairs(base) };
                        e.apply(&crate::config::v2::layer::EnvConfig { vars: clone_pairs(more) });
                        e.vars
                    },
                    None => clone_pairs(more),
                };
                self.env = Some(merged);
            },
            None => {},
        }
        Ok(())
    }
}

} // verus!
