//! Standalone files: tests are compiled with `rustc --test` into
//! `<stem>_test`, binaries into `<stem>`.
use vstd::prelude::*;

use crate::command::cargo_command::{plain_command, CargoCommand, CargoCommandView, CommandType};
use crate::command::file_builder::{
    cfg_extra_args, cfg_extra_env, env_copy, env_or_empty, extra_args_for, extra_env_for, file_only_identity,
    find_override, list_copy, list_or_empty, override_for, with_envs, FileConfig,
};
use crate::command::file_builder::script::SingleFileScriptBuilder;
use crate::error::Error;
use crate::paths::{file_stem, file_stem_spec};
use crate::strings::{concat2, owned};
use crate::types::{extend_strings, push_string, FileType, Runnable, RunnableKind};

verus! {

/// The extra arguments of the rustc block of the first matching override.
pub open spec fn ov_rustc_args(c: FileConfig, r: Runnable) -> Seq<Seq<char>> {
    match override_for(c, file_only_identity(r)) {
        Some(o) => match o.rustc {
            Some(x) => list_or_empty(x.extra_args),
            None => Seq::empty(),
        },
        None => Seq::empty(),
    }
}

/// The variables of the rustc block of the first matching override.
pub open spec fn ov_rustc_env(c: FileConfig, r: Runnable) -> Seq<(Seq<char>, Seq<char>)> {
    match override_for(c, file_only_identity(r)) {
        Some(o) => match o.rustc {
            Some(x) => env_or_empty(x.extra_env),
            None => Seq::empty(),
        },
        None => Seq::empty(),
    }
}

/// The rustc command for a runnable of a standalone file, before variables,
/// or the error: the file must name a stem, and only tests, module tests,
/// binaries and standalone runnables are built.
pub open spec fn rustc_base(r: Runnable, c: FileConfig, ft: FileType) -> Result<CargoCommandView, Seq<char>> {
    let file = r.file_path@;
    let extra = ov_rustc_args(c, r) + cfg_extra_args(c, ft);
    match file_stem_spec(file) {
        None => Err("Invalid file name"@),
        Some(stem) => match r.kind {
            RunnableKind::Test { test_name, .. } => Ok(
                CargoCommandView {
                    test_filter: Some(test_name@),
                    ..plain_command(CommandType::Rustc, seq!["--test"@, file, "-o"@, stem + "_test"@] + extra)
                },
            ),
            RunnableKind::ModuleTests { .. } => Ok(
                plain_command(CommandType::Rustc, seq!["--test"@, file, "-o"@, stem + "_test"@] + extra),
            ),
            RunnableKind::Binary { .. } | RunnableKind::Standalone { .. } => Ok(
                plain_command(CommandType::Rustc, seq![file, "-o"@, stem] + extra),
            ),
            _ => Err("Unsupported runnable type for rustc"@),
        },
    }
}

/// The rustc command with the variables for the kind of file, then those of
/// the matching override's rustc block.
pub open spec fn rustc_command(r: Runnable, c: FileConfig, ft: FileType) -> Result<CargoCommandView, Seq<char>> {
    match rustc_base(r, c, ft) {
        Ok(b) => Ok(CargoCommandView { env: b.env + cfg_extra_env(c, ft) + ov_rustc_env(c, r), ..b }),
        Err(m) => Err(m),
    }
}

/// Builds rustc commands for standalone files.
pub struct RustcCommandBuilder;

impl RustcCommandBuilder {
    /// The rustc command for a runnable of a standalone file.
    pub fn build(runnable: &Runnable, config: &FileConfig, file_type: FileType) -> (r: Result<CargoCommand, Error>)
        ensures
            match rustc_command(*runnable, *config, file_type) {
                Ok(c) => r matches Ok(cmd) && cmd@ == c,
                Err(m) => r matches Err(Error::ParseError(e)) && e@ == m,
            },
    {
        let stem = match file_stem(runnable.file_path.as_str()) {
            Some(s) => s,
            None => {
                return Err(Error::ParseError(owned("Invalid file name")));
            },
        };
        let id = SingleFileScriptBuilder::create_identity(runnable);
        let o = find_override(config, &id);
        let (ov_args, ov_env) = match o {
            Some(x) => match &x.rustc {
                Some(s) => (list_copy(&s.extra_args), env_copy(&s.extra_env)),
                None => (list_copy(&None), env_copy(&None)),
            },
            None => (list_copy(&None), env_copy(&None)),
        };
        assert(ov_args.deep_view() == ov_rustc_args(*config, *runnable));
        assert(ov_env.deep_view() == ov_rustc_env(*config, *runnable));
        let mut extra = ov_args;
        let global = extra_args_for(config, file_type);
        extend_strings(&mut extra, &global);
        let file = runnable.file_path.clone();
        let base = match &runnable.kind {
            RunnableKind::Test { test_name, .. } => {
                let args = Self::test_args(file, stem.as_str(), &extra);
                CargoCommand::new_rustc(args).with_test_filter(test_name.clone())
            },
            RunnableKind::ModuleTests { .. } => {
                let args = Self::test_args(file, stem.as_str(), &extra);
                CargoCommand::new_rustc(args)
            },
            RunnableKind::Binary { .. } | RunnableKind::Standalone { .. } => {
                let mut args: Vec<String> = Vec::new();
                push_string(&mut args, file);
                push_string(&mut args, owned("-o"));
                push_string(&mut args, stem);
                let ghost h = args.deep_view();
                extend_strings(&mut args, &extra);
                assert(args.deep_view() =~= seq![runnable.file_path@, "-o"@, h[2]] + extra.deep_view());
                CargoCommand::new_rustc(args)
            },
            _ => {
                return Err(Error::ParseError(owned("Unsupported runnable type for rustc")));
            },
        };
        assert(base@ == rustc_base(*runnable, *config, file_type)->Ok_0);
        let env = extra_env_for(config, file_type);
        let cmd = with_envs(base, &env);
        let cmd = with_envs(cmd, &ov_env);
        proof {
            assert(cmd@.env =~= rustc_base(*runnable, *config, file_type)->Ok_0.env + cfg_extra_env(*config, file_type)
                + ov_rustc_env(*config, *runnable));
        }
        Ok(cmd)
    }

    fn test_args(file: String, stem: &str, extra: &Vec<String>) -> (r: Vec<String>)
        ensures
            r.deep_view() == seq!["--test"@, file@, "-o"@, stem@ + "_test"@] + extra.deep_view(),
    {
        let mut args: Vec<String> = Vec::new();
        push_string(&mut args, owned("--test"));
        push_string(&mut args, file);
        push_string(&mut args, owned("-o"));
        push_string(&mut args, concat2(stem, "_test"));
        let ghost h = args.deep_view();
        extend_strings(&mut args, extra);
        assert(args.deep_view() =~= h + extra.deep_view());
        args
    }
}

} // verus!
