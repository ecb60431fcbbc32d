//! The command for one test, with the test tool the settings may name.
use vstd::prelude::*;
use crate::command::builder::in_module;
use crate::command::builder_v2::{
    tool_head, package_args, override_extra, override_binary, global_extra, global_binary, opt_pairs, override_view,
    override_env,
};
use crate::command::cargo_command::{CargoCommand, CargoCommandView, CommandType, plain_command};
use crate::command::target::{Target, TargetView, target_of_path};
use crate::config::override_config::{Override, OverrideView, opt_env_view};
use crate::config::settings::{Config, first_override};
use crate::config::test_framework::{TestFramework, opt_framework_view};
use crate::env::{EnvView, env_insert_all};
use crate::types::{FunctionIdentity, IdentityView, Runnable, RunnableView, RunnableKind, KindView, opt_view, push_string, clone_opt};

verus! {

/// The target flags of a test: `--lib`, `--bin <name>` or `--test <name>`.
pub open spec fn test_target_flags(path: Seq<char>) -> Seq<Seq<char>> {
    match target_of_path(path) {
        Some(TargetView::Lib) => seq!["--lib"@],
        Some(TargetView::Bin(n)) => seq!["--bin"@, n],
        Some(TargetView::Test(n)) => seq!["--test"@, n],
        _ => Seq::empty(),
    }
}

/// The identity a test's override is looked up by.
pub open spec fn test_identity(r: RunnableView, package: Option<Seq<char>>) -> IdentityView {
    IdentityView {
        package,
        mod_path: if r.mod_path.len() == 0 {
            None
        } else {
            Some(r.mod_path)
        },
        file_path: Some(r.file_path),
        function_name: match r.kind {
            KindView::Test { test_name, .. } => Some(test_name),
            _ => None,
        },
    }
}

/// Variables set in turn: those of the tool, the global ones, then the
/// override's, a later one replacing an earlier one of the same name.
pub open spec fn layered_env(tool: EnvView, global: EnvView, over: EnvView) -> EnvView {
    env_insert_all(env_insert_all(env_insert_all(Seq::empty(), tool), global), over)
}

/// `cargo [+ch] test|<tool> [--package p] <target> <extra> -- <module::test> --exact <test binary args>`.
pub open spec fn test_builder_command(r: RunnableView, pkg: Option<Seq<char>>, c: Config) -> CargoCommandView {
    let tool = opt_framework_view(c.test_frameworks);
    let o = override_view(first_override(c.overrides@, test_identity(r, opt_view(c.package))));
    let filter = match r.kind {
        KindView::Test { test_name, .. } => seq!["--"@, in_module(r.mod_path, test_name), "--exact"@]
            + override_binary(o) + global_binary(c),
        _ => Seq::empty(),
    };
    CargoCommandView {
        env: layered_env(
            match tool {
                Some(t) => opt_pairs(t.env),
                None => Seq::empty(),
            },
            opt_pairs(opt_env_view(c.env)),
            override_env(o),
        ),
        ..plain_command(
            CommandType::Cargo,
            tool_head(tool, opt_view(c.channel), "test"@) + package_args(pkg) + test_target_flags(r.file_path)
                + override_extra(o) + global_extra(c) + filter,
        )
    }
}

fn text(s: &str) -> (r: String)
    ensures
        r@ == s@,
{
    String::from_str(s)
}

/// Sets every pair of an optional list in turn.
pub(crate) fn set_all(env: &mut Vec<(String, String)>, more: &Option<Vec<(String, String)>>)
    ensures
        final(env).deep_view() == env_insert_all(old(env).deep_view(), opt_pairs(opt_env_view(*more))),
{
    match more {
        Some(m) => {
            let mut e = crate::config::v2::layer::EnvConfig { vars: crate::command::cargo_command::clone_pairs(env) };
            e.apply(&crate::config::v2::layer::EnvConfig { vars: crate::command::cargo_command::clone_pairs(m) });
            *env = e.vars;
        },
        None => {},
    }
}

/// Builds the command for a test.
pub struct TestBuilder {
    config: Config,
}

impl TestBuilder {
    /// A builder with these settings.
    pub fn new(config: Config) -> (r: Self)
        ensures
            r.config() == config,
    {
        TestBuilder { config }
    }

    /// The settings the builder uses.
    pub closed spec fn config(&self) -> Config {
        self.config
    }

    /// The identity a test's override is looked up by.
    pub fn create_identity(&self, runnable: &Runnable) -> (id: FunctionIdentity)
        ensures
            id@ == test_identity(runnable@, opt_view(self.config().package)),
    {
        FunctionIdentity {
            package: clone_opt(&self.config.package),
            mod_path: if runnable.mod_path.unicode_len() == 0 {
                None
            } else {
                Some(runnable.mod_path.clone())
            },
            file_path: Some(runnable.file_path.clone()),
            function_name: match &runnable.kind {
                RunnableKind::Test { test_name, .. } => Some(test_name.clone()),
                _ => None,
            },
        }
    }

    /// The command for the test (`project_root` plays no part).
    #[verifier::spinoff_prover]
    #[verifier::rlimit(40)]
    pub fn build(&self, runnable: &Runnable, package_name: Option<&str>, project_root: &str) -> (r: Result<CargoCommand, crate::error::Error>)
        ensures
            r matches Ok(cmd) && cmd@ == test_builder_command(runnable@, match package_name {
                Some(p) => Some(p@),
                None => None,
            }, self.config()),
    {
        let c = &self.config;
        let identity = self.create_identity(runnable);
        let o = c.find_override(&identity);
        let ghost ov = override_view(first_override(c.overrides@, identity@));
        assert(ov == match o {
            Some(x) => Some(x@),
            None => None::<OverrideView>,
        });
        let mut args = crate::command::builder_v2::tool_head_args(&c.test_frameworks, &c.channel, "test");
        let pkg = match package_name {
            Some(p) => Some(text(p)),
            None => None,
        };
        crate::command::builder_v2::push_package(&mut args, &pkg);
        let ghost a0 = args.deep_view();
        match Target::from_file_path(runnable.file_path.as_str()) {
            Some(t) => match t {
                Target::Lib => push_string(&mut args, text("--lib")),
                Target::Bin(name) => {
                    push_string(&mut args, text("--bin"));
                    push_string(&mut args, name);
                },
                Target::Test(name) => {
                    push_string(&mut args, text("--test"));
                    push_string(&mut args, name);
                },
                _ => {},
            },
            None => {},
        }
        assert(args.deep_view() =~= a0 + test_target_flags(runnable@.file_path));
        crate::command::builder_v2::push_override_extra(&mut args, o);
        crate::command::builder_v2::extend_opt(&mut args, &c.extra_args);
        let ghost a1 = args.deep_view();
        match &runnable.kind {
            RunnableKind::Test { test_name, .. } => {
                push_string(&mut args, text("--"));
                let path = if runnable.mod_path.unicode_len() == 0 {
                    test_name.clone()
                } else {
                    crate::strings::qualify(runnable.mod_path.as_str(), test_name.as_str())
                };
                push_string(&mut args, path);
                push_string(&mut args, text("--exact"));
                crate::command::builder_v2::push_override_binary(&mut args, o);
                crate::command::builder_v2::extend_opt(&mut args, &c.extra_test_binary_args);
                assert(args.deep_view() =~= a1 + (seq!["--"@, in_module(runnable@.mod_path, test_name@), "--exact"@]
                    + override_binary(ov) + global_binary(*c)));
            },
            _ => {
                assert(args.deep_view() =~= a1 + Seq::<Seq<char>>::empty());
            },
        }
        let mut env: Vec<(String, String)> = Vec::new();
        assert(env.deep_view() =~= Seq::<(Seq<char>, Seq<char>)>::empty());
        match &c.test_frameworks {
            Some(t) => set_all(&mut env, &t.env),
            None => {},
        }
        set_all(&mut env, &c.env);
        match o {
            Some(x) => set_all(&mut env, &x.extra_env),
            None => {},
        }
        let mut cmd = CargoCommand::new(args);
        cmd.env = env;
        Ok(cmd)
    }
}

} // verus!
