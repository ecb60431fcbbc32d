//! The command for one doc test.
use vstd::prelude::*;
use crate::command::builder_v2::{
    doc_path, package_args, override_extra, override_binary, global_extra, global_binary, opt_pairs, override_view,
    override_env,
};
use crate::command::cargo_command::{CargoCommand, CargoCommandView, CommandType, plain_command};
use crate::command::target_builder::test::set_all;
use crate::config::override_config::{OverrideView, opt_env_view};
use crate::config::settings::{Config, first_override};
use crate::env::env_insert_all;
use crate::paths::{components_of, parent_components};
use crate::strings::str_eq;
use crate::types::{FunctionIdentity, IdentityView, Runnable, RunnableView, RunnableKind, KindView, opt_view, push_string};

verus! {

/// The name of the directory holding a file, when it has one.
pub open spec fn parent_dir_name(p: Seq<char>) -> Option<Seq<char>> {
    match parent_components(p) {
        Some(pc) => if pc.len() > 0 && pc.last() != "/"@ && pc.last() != "."@ && pc.last() != ".."@ {
            Some(pc.last())
        } else {
            None
        },
        None => None,
    }
}

/// The identity a doc test's override is looked up by: its package is
/// taken to be the name of the directory holding the file.
pub open spec fn doc_test_identity(r: RunnableView) -> IdentityView {
    match r.kind {
        KindView::DocTest { struct_or_module_name, method_name } => IdentityView {
            package: parent_dir_name(r.file_path),
            mod_path: if r.mod_path.len() == 0 {
                None
            } else {
                Some(r.mod_path)
            },
            file_path: Some(r.file_path),
            function_name: Some(doc_path(struct_or_module_name, method_name)),
        },
        _ => IdentityView { package: None, mod_path: None, file_path: None, function_name: None },
    }
}

/// `cargo test --doc [--package p] <extra> -- <path> <test binary args>`.
pub open spec fn doc_test_builder_command(r: RunnableView, pkg: Option<Seq<char>>, c: Config) -> CargoCommandView {
    let o = override_view(first_override(c.overrides@, doc_test_identity(r)));
    let filter = match r.kind {
        KindView::DocTest { struct_or_module_name, method_name } => seq!["--"@, doc_path(struct_or_module_name, method_name)]
            + override_binary(o) + global_binary(c),
        _ => Seq::empty(),
    };
    CargoCommandView {
        env: env_insert_all(env_insert_all(Seq::empty(), opt_pairs(opt_env_view(c.env))), override_env(o)),
        ..plain_command(
            CommandType::Cargo,
            seq!["test"@, "--doc"@] + package_args(pkg) + override_extra(o) + global_extra(c) + filter,
        )
    }
}

fn text(s: &str) -> (r: String)
    ensures
        r@ == s@,
{
    String::from_str(s)
}

/// The name of the directory holding a file.
fn parent_name(p: &str) -> (r: Option<String>)
    ensures
        opt_view(r) == parent_dir_name(p@),
{
    let c = components_of(p);
    let n = c.len();
    if n < 2 {
        return None;
    }
    let last = c[n - 2].as_str();
    proof {
        assert(c.deep_view().drop_last().last() == c.deep_view()[n - 2]);
    }
    if str_eq(last, "/") || str_eq(last, ".") || str_eq(last, "..") {
        None
    } else {
        Some(text(last))
    }
}

/// Builds the command for a doc test.
pub struct DocTestBuilder {
    config: Config,
}

impl DocTestBuilder {
    /// A builder with these settings.
    pub fn new(config: Config) -> (r: Self)
        ensures
            r.config() == config,
    {
        DocTestBuilder { config }
    }

    /// The settings the builder uses.
    pub closed spec fn config(&self) -> Config {
        self.config
    }

    /// The identity a doc test's override is looked up by.
    pub fn create_identity(&self, runnable: &Runnable) -> (id: FunctionIdentity)
        ensures
            id@ == doc_test_identity(runnable@),
    {
        match &runnable.kind {
            RunnableKind::DocTest { struct_or_module_name, method_name } => FunctionIdentity {
                package: parent_name(runnable.file_path.as_str()),
                mod_path: if runnable.mod_path.unicode_len() == 0 {
                    None
                } else {
                    Some(runnable.mod_path.clone())
                },
                file_path: Some(runnable.file_path.clone()),
                function_name: Some(match method_name {
                    Some(m) => crate::strings::qualify(struct_or_module_name.as_str(), m.as_str()),
                    None => struct_or_module_name.clone(),
                }),
            },
            _ => FunctionIdentity { package: None, mod_path: None, file_path: None, function_name: None },
        }
    }

    /// The command for the doc test (`project_root` plays no part).
    pub fn build(&self, runnable: &Runnable, package_name: Option<&str>, project_root: &str) -> (r: Result<CargoCommand, crate::error::Error>)
        ensures
            r matches Ok(cmd) && cmd@ == doc_test_builder_command(runnable@, match package_name {
                Some(p) => Some(p@),
                None => None,
            }, self.config()),
    {
        let c = &self.config;
        let identity = self.create_identity(runnable);
        let o = c.find_override(&identity);
        let ghost ov = override_view(first_override(c.overrides@, identity@));
        assert(ov == match o {
            Some(x) => Some(x@),
            None => None::<OverrideView>,
        });
        let mut args: Vec<String> = Vec::new();
        push_string(&mut args, text("test"));
        push_string(&mut args, text("--doc"));
        assert(args.deep_view() =~= seq!["test"@, "--doc"@]);
        let pkg = match package_name {
            Some(p) => Some(text(p)),
            None => None,
        };
        crate::command::builder_v2::push_package(&mut args, &pkg);
        crate::command::builder_v2::push_override_extra(&mut args, o);
        crate::command::builder_v2::extend_opt(&mut args, &c.extra_args);
        let ghost a1 = args.deep_view();
        match &runnable.kind {
            RunnableKind::DocTest { struct_or_module_name, method_name } => {
                push_string(&mut args, text("--"));
                let path = match method_name {
                    Some(m) => crate::strings::qualify(struct_or_module_name.as_str(), m.as_str()),
                    None => struct_or_module_name.clone(),
                };
                push_string(&mut args, path);
                crate::command::builder_v2::push_override_binary(&mut args, o);
                crate::command::builder_v2::extend_opt(&mut args, &c.extra_test_binary_args);
                assert(args.deep_view() =~= a1 + (seq!["--"@, doc_path(struct_or_module_name@, opt_view(*method_name))]
                    + override_binary(ov) + global_binary(*c)));
            },
            _ => {
                assert(args.deep_view() =~= a1 + Seq::<Seq<char>>::empty());
            },
        }
        let mut env: Vec<(String, String)> = Vec::new();
        assert(env.deep_view() =~= Seq::<(Seq<char>, Seq<char>)>::empty());
        set_all(&mut env, &c.env);
        match o {
            Some(x) => set_all(&mut env, &x.extra_env),
            None => {},
        }
        let mut cmd = CargoCommand::new(args);
        cmd.env = env;
        Ok(cmd)
    }
}

} // verus!
