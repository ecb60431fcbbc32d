//! Commands for runnables from the runner's settings: the subcommand for the
//! kind of runnable, the package and target, the test filter, then the
//! global settings or the override that matches the function.
use vstd::prelude::*;

pub mod bazel;
use crate::command::cargo_command::{CargoCommand, CargoCommandView, CommandType, plain_command, clone_pairs};
use crate::command::target::{Target, TargetView, target_of_path};
use crate::config::merge::merge_env;
use crate::config::override_config::{Override, OverrideView, opt_env_view};
use crate::config::settings::{Config, first_match, first_override, matches_view, lemma_first_override};
use crate::config::v2::resolver::{with_extra, with_binary_args, insert_extra, append_binary_args};
use crate::env::{EnvView, env_insert_all};
use crate::strings::{qualified, concat2, qualify, str_eq};
use crate::types::{FunctionIdentity, Runnable, RunnableKind, opt_view, opt_strings_view, push_string, clone_opt};

verus! {

/// Builds commands with the runner's settings.
pub struct CommandBuilder {
    pub config: Config,
}

/// The subcommand for a kind of runnable.
pub open spec fn base_args(kind: RunnableKind) -> Seq<Seq<char>> {
    match kind {
        RunnableKind::Test { .. } => seq!["test"@],
        RunnableKind::DocTest { .. } => seq!["test"@, "--doc"@],
        RunnableKind::Benchmark { .. } => seq!["bench"@],
        RunnableKind::Binary { .. } => seq!["run"@],
        RunnableKind::ModuleTests { .. } => seq!["test"@],
        RunnableKind::Standalone { has_tests } => if has_tests {
            seq!["test"@]
        } else {
            seq!["run"@]
        },
        RunnableKind::SingleFileScript { .. } => seq!["run"@],
    }
}

/// The flags that select a target; the binary `main` needs none.
pub open spec fn target_selection(t: Option<TargetView>) -> Seq<Seq<char>> {
    match t {
        None => Seq::empty(),
        Some(TargetView::Lib) => seq!["--lib"@],
        Some(TargetView::Bin(n)) => if n == "main"@ {
            Seq::empty()
        } else {
            seq!["--bin"@, n]
        },
        Some(TargetView::Example(n)) => seq!["--example"@, n],
        Some(TargetView::Test(n)) => seq!["--test"@, n],
        Some(TargetView::Bench(n)) => seq!["--bench"@, n],
    }
}

/// `module::name`, or `name` when the module path is empty.
pub open spec fn in_module(module: Seq<char>, name: Seq<char>) -> Seq<char> {
    if module.len() == 0 {
        name
    } else {
        qualified(module, name)
    }
}

/// The filter after `--` that selects the runnable.
pub open spec fn filter_args(kind: RunnableKind, module: Seq<char>) -> Seq<Seq<char>> {
    match kind {
        RunnableKind::Test { test_name, .. } => seq!["--"@, in_module(module, test_name@), "--exact"@],
        RunnableKind::DocTest { struct_or_module_name, method_name } => seq![
            "--"@,
            match method_name {
                Some(m) => qualified(struct_or_module_name@, m@),
                None => struct_or_module_name@,
            }
        ],
        RunnableKind::ModuleTests { module_name } => seq!["--"@, in_module(module, module_name@)],
        _ => Seq::empty(),
    }
}

/// The arguments before settings are applied.
pub open spec fn runnable_args(r: Runnable, package: Option<Seq<char>>) -> Seq<Seq<char>> {
    base_args(r.kind) + match package {
        Some(p) => seq!["--package"@, p],
        None => Seq::empty(),
    } + target_selection(target_of_path(r.file_path@)) + filter_args(r.kind, r.mod_path@)
}

/// The identity overrides are matched against.
pub open spec fn runnable_identity(r: Runnable, package: Option<Seq<char>>) -> crate::types::IdentityView {
    crate::types::IdentityView {
        package,
        mod_path: if r.mod_path@.len() == 0 {
            None
        } else {
            Some(r.mod_path@)
        },
        file_path: Some(r.file_path@),
        function_name: match r.kind {
            RunnableKind::Test { test_name, .. } => Some(test_name@),
            RunnableKind::Benchmark { bench_name } => Some(bench_name@),
            _ => opt_view(r.scope.name),
        },
    }
}

/// `s` cut to its first `k` items.
pub open spec fn truncated(s: Seq<Seq<char>>, k: int) -> Seq<Seq<char>> {
    if s.len() > k {
        s.subrange(0, k)
    } else {
        s
    }
}

/// The arguments with an override applied: command and subcommand replaced
/// or inserted, extra arguments inserted before `--` (or, when forced,
/// replacing everything after the command and subcommand), and test binary
/// arguments after a `--`.
pub open spec fn override_args(args: Seq<Seq<char>>, o: OverrideView) -> Seq<Seq<char>> {
    let a1 = match o.command {
        Some(c) => if args.len() > 0 {
            args.update(0, c)
        } else {
            args
        },
        None => args,
    };
    let a2 = match o.subcommand {
        Some(s) => if a1.len() > 0 {
            a1.insert(1, s)
        } else {
            a1
        },
        None => a1,
    };
    let a3 = match o.extra_args {
        Some(e) => if o.force_replace_args == Some(true) {
            truncated(a2, if o.subcommand is Some {
                2
            } else {
                1
            }) + e
        } else {
            with_extra(a2, e)
        },
        None => a2,
    };
    match o.extra_test_binary_args {
        Some(t) => with_binary_args(a3, t),
        None => a3,
    }
}

/// The arguments with the global settings applied.
pub open spec fn global_args(args: Seq<Seq<char>>, c: Config) -> Seq<Seq<char>> {
    let a1 = match opt_strings_view(c.extra_args) {
        Some(e) => with_extra(args, e),
        None => args,
    };
    match opt_strings_view(c.extra_test_binary_args) {
        Some(t) => with_binary_args(a1, t),
        None => a1,
    }
}

/// The command the settings give for the arguments and identity: the first
/// matching override's settings when one matches, the global ones otherwise;
/// a toolchain channel goes first.
pub open spec fn settings_command(args: Seq<Seq<char>>, id: crate::types::IdentityView, c: Config, o: Option<Override>) -> CargoCommandView {
    let global_env = opt_env_view(c.env).unwrap_or(Seq::empty());
    let (a, channel, env) = match o {
        Some(ov) => (
            override_args(args, ov@),
            if ov.channel is Some {
                opt_view(ov.channel)
            } else {
                opt_view(c.channel)
            },
            merge_env(Some(global_env), opt_env_view(ov.extra_env), ov.force_replace_env == Some(true))->0,
        ),
        None => (global_args(args, c), opt_view(c.channel), global_env),
    };
    CargoCommandView {
        args: match channel {
            Some(ch) => seq!["+"@ + ch] + a,
            None => a,
        },
        env,
        ..plain_command(CommandType::Cargo, Seq::empty())
    }
}

fn text(s: &str) -> (r: String)
    ensures
        r@ == s@,
{
    String::from_str(s)
}

/// Replaces the string at `i`.
fn set_string(v: &mut Vec<String>, i: usize, s: String)
    requires
        i < old(v)@.len(),
    ensures
        final(v).deep_view() == old(v).deep_view().update(i as int, s@),
{
    let ghost old_r = v@;
    let ghost old_dv = v.deep_view();
    let ghost sv = s@;
    v.set(i, s);
    proof {
        assert forall|j: int| 0 <= j < v@.len() implies v.deep_view()[j] == old_dv.update(i as int, sv)[j] by {
            if j != i {
                assert(v@[j] == old_r[j]);
            }
        }
        assert(v.deep_view() =~= old_dv.update(i as int, sv));
    }
}

/// Inserts a string at `i`.
fn insert_string(v: &mut Vec<String>, i: usize, s: String)
    requires
        i <= old(v)@.len(),
    ensures
        final(v).deep_view() == old(v).deep_view().insert(i as int, s@),
{
    let ghost old_r = v@;
    let ghost old_dv = v.deep_view();
    let ghost sv = s@;
    v.insert(i, s);
    proof {
        assert forall|j: int| 0 <= j < v@.len() implies v.deep_view()[j] == old_dv.insert(i as int, sv)[j] by {
            if j < i {
                assert(v@[j] == old_r[j]);
            } else if j > i {
                assert(v@[j] == old_r[j - 1]);
            }
        }
        assert(v.deep_view() =~= old_dv.insert(i as int, sv));
    }
}

/// Cuts the list to its first `k` strings.
fn truncate_strings(v: &mut Vec<String>, k: usize)
    ensures
        final(v).deep_view() == truncated(old(v).deep_view(), k as int),
{
    let ghost old_dv = v.deep_view();
    let ghost old_r = v@;
    v.truncate(k);
    proof {
        assert forall|j: int| 0 <= j < v@.len() implies v.deep_view()[j] == truncated(old_dv, k as int)[j] by {
            assert(v@[j] == old_r[j]);
        }
        assert(v.deep_view() =~= truncated(old_dv, k as int));
    }
}

fn copy_env(o: &Option<Vec<(String, String)>>) -> (r: Vec<(String, String)>)
    ensures
        r.deep_view() == opt_env_view(*o).unwrap_or(Seq::empty()),
{
    match o {
        Some(v) => clone_pairs(v),
        None => {
            let r: Vec<(String, String)> = Vec::new();
            assert(r.deep_view() =~= Seq::<(Seq<char>, Seq<char>)>::empty());
            r
        },
    }
}

impl CommandBuilder {
    /// A builder with the given settings.
    pub fn new(config: Config) -> (r: Self)
        ensures
            r.config == config,
    {
        CommandBuilder { config }
    }

    fn runnable_args_of(runnable: &Runnable, package_name: Option<&str>) -> (r: Vec<String>)
        ensures
            r.deep_view() == runnable_args(*runnable, match package_name {
                Some(p) => Some(p@),
                None => None,
            }),
    {
        let mut args: Vec<String> = Vec::new();
        match &runnable.kind {
            RunnableKind::Test { .. } => push_string(&mut args, text("test")),
            RunnableKind::DocTest { .. } => {
                push_string(&mut args, text("test"));
                push_string(&mut args, text("--doc"));
            },
            RunnableKind::Benchmark { .. } => push_string(&mut args, text("bench")),
            RunnableKind::Binary { .. } => push_string(&mut args, text("run")),
            RunnableKind::ModuleTests { .. } => push_string(&mut args, text("test")),
            RunnableKind::Standalone { has_tests } => if *has_tests {
                push_string(&mut args, text("test"))
            } else {
                push_string(&mut args, text("run"))
            },
            RunnableKind::SingleFileScript { .. } => push_string(&mut args, text("run")),
        }
        let ghost a0 = args.deep_view();
        match package_name {
            Some(p) => {
                push_string(&mut args, text("--package"));
                push_string(&mut args, text(p));
            },
            None => {},
        }
        let ghost a1 = args.deep_view();
        match Target::from_file_path(runnable.file_path.as_str()) {
            Some(t) => match t {
                Target::Lib => push_string(&mut args, text("--lib")),
                Target::Bin(name) => {
                    if !str_eq(name.as_str(), "main") {
                        push_string(&mut args, text("--bin"));
                        push_string(&mut args, name);
                    }
                },
                Target::Example(name) => {
                    push_string(&mut args, text("--example"));
                    push_string(&mut args, name);
                },
                Target::Test(name) => {
                    push_string(&mut args, text("--test"));
                    push_string(&mut args, name);
                },
                Target::Bench(name) => {
                    push_string(&mut args, text("--bench"));
                    push_string(&mut args, name);
                },
            },
            None => {},
        }
        let ghost a2 = args.deep_view();
        let module = runnable.mod_path.as_str();
        let module_empty = module.unicode_len() == 0;
        match &runnable.kind {
            RunnableKind::Test { test_name, .. } => {
                push_string(&mut args, text("--"));
                let path = if module_empty {
                    test_name.clone()
                } else {
                    qualify(module, test_name.as_str())
                };
                push_string(&mut args, path);
                push_string(&mut args, text("--exact"));
            },
            RunnableKind::DocTest { struct_or_module_name, method_name } => {
                push_string(&mut args, text("--"));
                let f = match method_name {
                    Some(m) => qualify(struct_or_module_name.as_str(), m.as_str()),
                    None => struct_or_module_name.clone(),
                };
                push_string(&mut args, f);
            },
            RunnableKind::ModuleTests { module_name } => {
                push_string(&mut args, text("--"));
                let f = if module_empty {
                    module_name.clone()
                } else {
                    qualify(module, module_name.as_str())
                };
                push_string(&mut args, f);
            },
            _ => {},
        }
        proof {
            let pkg = match package_name {
                Some(p) => Some(p@),
                None => None,
            };
            assert(a0 =~= base_args(runnable.kind));
            assert(a1 =~= a0 + match pkg {
                Some(p) => seq!["--package"@, p],
                None => Seq::<Seq<char>>::empty(),
            });
            assert(a2 =~= a1 + target_selection(target_of_path(runnable.file_path@)));
            assert(args.deep_view() =~= a2 + filter_args(runnable.kind, runnable.mod_path@));
        }
        args
    }

    fn identity_of(runnable: &Runnable, package_name: Option<&str>) -> (r: FunctionIdentity)
        ensures
            r@ == runnable_identity(*runnable, match package_name {
                Some(p) => Some(p@),
                None => None,
            }),
    {
        let function_name = match &runnable.kind {
            RunnableKind::Test { test_name, .. } => Some(test_name.clone()),
            RunnableKind::Benchmark { bench_name } => Some(bench_name.clone()),
            _ => clone_opt(&runnable.scope.name),
        };
        FunctionIdentity {
            package: match package_name {
                Some(p) => Some(text(p)),
                None => None,
            },
            mod_path: if runnable.mod_path.unicode_len() == 0 {
                None
            } else {
                Some(runnable.mod_path.clone())
            },
            file_path: Some(runnable.file_path.clone()),
            function_name,
        }
    }

    /// The command the settings give for the arguments and the identity.
    fn apply_overrides(&self, args: Vec<String>, identity: &FunctionIdentity) -> (r: CargoCommand)
        ensures
            r@ == settings_command(args.deep_view(), identity@, self.config, first_override(self.config.overrides@, identity@)),
    {
        let mut args = args;
        let ghost a0 = args.deep_view();
        let mut channel = clone_opt(&self.config.channel);
        let mut extra_env = copy_env(&self.config.env);
        let found = self.config.get_override_for(identity);
        proof {
            match found {
                Some(o) => {
                    let i = choose|i: int| first_match(self.config.overrides@, *identity, i) && self.config.overrides@[i] == *o;
                    lemma_first_override(self.config.overrides@, *identity, i);
                },
                None => {
                    assert(!(exists|i: int| 0 <= i < self.config.overrides@.len() && matches_view(#[trigger] self.config.overrides@[i].identity, identity@)));
                },
            }
        }
        match found {
            Some(o) => {
                if o.channel.is_some() {
                    channel = clone_opt(&o.channel);
                }
                match &o.command {
                    Some(c) => if args.len() > 0 {
                        set_string(&mut args, 0, c.clone());
                    },
                    None => {},
                }
                match &o.subcommand {
                    Some(sc) => if args.len() > 0 {
                        insert_string(&mut args, 1, sc.clone());
                    },
                    None => {},
                }
                match &o.extra_args {
                    Some(e) => {
                        let force = match o.force_replace_args {
                            Some(b) => b,
                            None => false,
                        };
                        if force {
                            let k: usize = if o.subcommand.is_some() {
                                2
                            } else {
                                1
                            };
                            truncate_strings(&mut args, k);
                            crate::types::extend_strings(&mut args, e);
                        } else {
                            insert_extra(&mut args, e);
                        }
                    },
                    None => {},
                }
                match &o.extra_test_binary_args {
                    Some(t) => append_binary_args(&mut args, t),
                    None => {},
                }
                match &o.extra_env {
                    Some(e) => {
                        let force = match o.force_replace_env {
                            Some(b) => b,
                            None => false,
                        };
                        if force {
                            extra_env = clone_pairs(e);
                        } else {
                            let mut cfg = crate::config::v2::layer::EnvConfig { vars: extra_env };
                            cfg.apply(&crate::config::v2::layer::EnvConfig { vars: clone_pairs(e) });
                            extra_env = cfg.vars;
                        }
                    },
                    None => {},
                }
                assert(args.deep_view() == override_args(a0, o@));
            },
            None => {
                match &self.config.extra_args {
                    Some(e) => insert_extra(&mut args, e),
                    None => {},
                }
                match &self.config.extra_test_binary_args {
                    Some(t) => append_binary_args(&mut args, t),
                    None => {},
                }
                assert(args.deep_view() == global_args(a0, self.config));
            },
        }
        let ghost a_final = args.deep_view();
        match &channel {
            Some(ch) => insert_string(&mut args, 0, concat2("+", ch.as_str())),
            None => {},
        }
        proof {
            match channel {
                Some(ch) => assert(args.deep_view() =~= seq!["+"@ + ch@] + a_final),
                None => {},
            }
        }
        let ghost final_args = args.deep_view();
        let mut command = CargoCommand::new(args);
        let mut i: usize = 0;
        assert(command@.env =~= extra_env.deep_view().subrange(0, 0));
        while i < extra_env.len()
            invariant
                i <= extra_env@.len(),
                command@.env == extra_env.deep_view().subrange(0, i as int),
                command@ == (CargoCommandView { env: command@.env, ..plain_command(CommandType::Cargo, final_args) }),
            decreases extra_env.len() - i,
        {
            let k = extra_env[i].0.clone();
            let v = extra_env[i].1.clone();
            command = command.with_env(k, v);
            assert(extra_env.deep_view().subrange(0, i + 1) =~= extra_env.deep_view().subrange(0, i as int).push((k@, v@)));
            i = i + 1;
        }
        assert(extra_env.deep_view().subrange(0, i as int) =~= extra_env.deep_view());
        command
    }

    /// Build the command for a runnable of the given package.
    pub fn build_command(&self, runnable: &Runnable, package_name: Option<&str>, project_root: &str) -> (r: Result<CargoCommand, crate::error::Error>)
        ensures
            ({
                let pkg = match package_name {
                    Some(p) => Some(p@),
                    None => None,
                };
                let id = runnable_identity(*runnable, pkg);
                r matches Ok(c) && c@ == settings_command(runnable_args(*runnable, pkg), id, self.config, first_override(self.config.overrides@, id))
            }),
    {
        let args = CommandBuilder::runnable_args_of(runnable, package_name);
        let identity = CommandBuilder::identity_of(runnable, package_name);
        Ok(self.apply_overrides(args, &identity))
    }
}

} // verus!
