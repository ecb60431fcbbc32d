//! Commands for runnables from the runner's settings, with one builder per
//! kind of runnable and the test or binary tool the settings may name.
use vstd::prelude::*;
use crate::command::builder::in_module;
use crate::command::cargo_command::{CargoCommand, CargoCommandView, CommandType, plain_command, clone_pairs};
use crate::command::target::{Target, TargetView, target_of_path};
use crate::config::merge::or_else;
use crate::config::override_config::{Override, OverrideView, opt_env_view};
use crate::config::settings::{Config, first_override};
use crate::config::test_framework::{TestFramework, FrameworkView, opt_framework_view};
use crate::env::EnvView;
use crate::error::Error;
use crate::paths::{file_stem, file_stem_spec};
use crate::strings::{qualified, qualify, seq_contains, contains, split_whitespace, words, str_eq, concat2};
use crate::types::{
    FunctionIdentity, IdentityView, Runnable, RunnableView, RunnableKind, KindView, opt_view,
    opt_strings_view, push_string, extend_strings, clone_opt,
};

verus! {

/// The items of an optional list, none when absent.
pub open spec fn opt_list(o: Option<Seq<Seq<char>>>) -> Seq<Seq<char>> {
    match o {
        Some(s) => s,
        None => Seq::empty(),
    }
}

/// The pairs of an optional list of variables, none when absent.
pub open spec fn opt_pairs(o: Option<EnvView>) -> EnvView {
    match o {
        Some(e) => e,
        None => Seq::empty(),
    }
}

/// `+channel` when a channel is given.
pub open spec fn channel_args(ch: Option<Seq<char>>) -> Seq<Seq<char>> {
    match ch {
        Some(c) => seq!["+"@ + c],
        None => Seq::empty(),
    }
}

/// `--package <name>` when a package is given.
pub open spec fn package_args(p: Option<Seq<char>>) -> Seq<Seq<char>> {
    match p {
        Some(p) => seq!["--package"@, p],
        None => Seq::empty(),
    }
}

/// The start of a command with an optional tool: the tool's channel (or the
/// global one), the words of its subcommand (or the default subcommand) and
/// its arguments; without a tool, the global channel and the default subcommand.
pub open spec fn tool_head(tool: Option<FrameworkView>, channel: Option<Seq<char>>, default_sub: Seq<char>) -> Seq<Seq<char>> {
    match tool {
        Some(t) => channel_args(or_else(channel, t.channel)) + match t.subcommand {
            Some(s) => words(s),
            None => seq![default_sub],
        } + opt_list(t.extra_args),
        None => channel_args(channel) + seq![default_sub],
    }
}

/// The target flags of a test: `--lib`, `--bin <name>` (the package name for
/// the binary `main` when a package is given) or `--test <name>`.
pub open spec fn test_target_args(path: Seq<char>, pkg: Option<Seq<char>>) -> Seq<Seq<char>> {
    match target_of_path(path) {
        Some(TargetView::Lib) => seq!["--lib"@],
        Some(TargetView::Bin(n)) => seq![
            "--bin"@,
            if n == "main"@ && pkg is Some {
                pkg->0
            } else {
                n
            }
        ],
        Some(TargetView::Test(n)) => seq!["--test"@, n],
        _ => Seq::empty(),
    }
}

/// The extra arguments of an override.
pub open spec fn override_extra(o: Option<OverrideView>) -> Seq<Seq<char>> {
    match o {
        Some(v) => opt_list(v.extra_args),
        None => Seq::empty(),
    }
}

/// The test binary arguments of an override.
pub open spec fn override_binary(o: Option<OverrideView>) -> Seq<Seq<char>> {
    match o {
        Some(v) => opt_list(v.extra_test_binary_args),
        None => Seq::empty(),
    }
}

/// The variables of an override.
pub open spec fn override_env(o: Option<OverrideView>) -> EnvView {
    match o {
        Some(v) => opt_pairs(v.extra_env),
        None => Seq::empty(),
    }
}

/// The variables of an optional tool.
pub open spec fn tool_env(t: Option<FrameworkView>) -> EnvView {
    match t {
        Some(f) => opt_pairs(f.env),
        None => Seq::empty(),
    }
}

/// `Type::method`, or the type or module name alone.
pub open spec fn doc_path(name: Seq<char>, method: Option<Seq<char>>) -> Seq<char> {
    match method {
        Some(m) => qualified(name, m),
        None => name,
    }
}

/// The identity the override of a runnable is looked up by: the package of
/// the settings, the module path when not empty, the file and the name of
/// what the runnable runs.
pub open spec fn v2_identity(r: RunnableView, package: Option<Seq<char>>) -> IdentityView {
    IdentityView {
        package,
        mod_path: if r.mod_path.len() == 0 {
            None
        } else {
            Some(r.mod_path)
        },
        file_path: Some(r.file_path),
        function_name: match r.kind {
            KindView::DocTest { struct_or_module_name, method_name } => Some(doc_path(struct_or_module_name, method_name)),
            KindView::Test { test_name, .. } => Some(test_name),
            KindView::Binary { bin_name } => bin_name,
            KindView::ModuleTests { module_name } => Some(module_name),
            KindView::Benchmark { bench_name } => Some(bench_name),
            _ => None,
        },
    }
}

/// The global extra arguments of the settings.
pub open spec fn global_extra(c: Config) -> Seq<Seq<char>> {
    opt_list(opt_strings_view(c.extra_args))
}

/// The global test binary arguments of the settings.
pub open spec fn global_binary(c: Config) -> Seq<Seq<char>> {
    opt_list(opt_strings_view(c.extra_test_binary_args))
}

/// The global variables of the settings.
pub open spec fn global_env(c: Config) -> EnvView {
    opt_pairs(opt_env_view(c.env))
}

/// A cargo command with the given arguments and variables.
pub open spec fn cargo_with(args: Seq<Seq<char>>, env: EnvView) -> CargoCommandView {
    CargoCommandView { env, ..plain_command(CommandType::Cargo, args) }
}

/// `cargo test --doc [--package p] <extra> -- <path> <test binary args>`.
pub open spec fn doc_test_command(r: RunnableView, pkg: Option<Seq<char>>, c: Config, o: Option<OverrideView>) -> CargoCommandView {
    let filter = match r.kind {
        KindView::DocTest { struct_or_module_name, method_name } => seq!["--"@, doc_path(struct_or_module_name, method_name)]
            + override_binary(o) + global_binary(c),
        _ => Seq::empty(),
    };
    cargo_with(
        seq!["test"@, "--doc"@] + package_args(pkg) + override_extra(o) + global_extra(c) + filter,
        global_env(c) + override_env(o),
    )
}

/// `cargo [+ch] test|<tool> [--package p] <target> <extra> -- <module::test> --exact <test binary args>`.
pub open spec fn test_command(r: RunnableView, pkg: Option<Seq<char>>, c: Config, o: Option<OverrideView>) -> CargoCommandView {
    let tool = opt_framework_view(c.test_frameworks);
    let filter = match r.kind {
        KindView::Test { test_name, .. } => seq!["--"@, in_module(r.mod_path, test_name), "--exact"@]
            + override_binary(o) + global_binary(c),
        _ => Seq::empty(),
    };
    cargo_with(
        tool_head(tool, opt_view(c.channel), "test"@) + package_args(pkg) + test_target_args(r.file_path, pkg)
            + override_extra(o) + global_extra(c) + filter,
        tool_env(tool) + global_env(c) + override_env(o),
    )
}

/// `cargo [+ch] test|<tool> [--package p] <target> <extra> -- <module> <test binary args>`.
pub open spec fn module_tests_command(r: RunnableView, pkg: Option<Seq<char>>, c: Config, o: Option<OverrideView>) -> CargoCommandView {
    let tool = opt_framework_view(c.test_frameworks);
    let filter = match r.kind {
        KindView::ModuleTests { module_name } => seq!["--"@, module_name] + override_binary(o) + global_binary(c),
        _ => Seq::empty(),
    };
    cargo_with(
        tool_head(tool, opt_view(c.channel), "test"@) + package_args(pkg) + test_target_args(r.file_path, pkg)
            + override_extra(o) + global_extra(c) + filter,
        tool_env(tool) + global_env(c) + override_env(o),
    )
}

/// What follows `bench` and the package for a benchmark: `--bench <name>`
/// for a file under `benches/`, the extra arguments, then `-- <name>` and the
/// test binary arguments.
pub open spec fn bench_rest(path: Seq<char>, name: Seq<char>, c: Config, o: Option<OverrideView>) -> Seq<Seq<char>> {
    (if seq_contains(path, "benches/"@) {
        seq!["--bench"@, name]
    } else {
        Seq::empty()
    }) + override_extra(o) + global_extra(c) + seq!["--"@, name] + override_binary(o) + global_binary(c)
}

/// `cargo [+ch] bench [--package p] [--bench name] <extra> -- <name> <test binary args>`.
pub open spec fn bench_command(r: RunnableView, pkg: Option<Seq<char>>, c: Config, o: Option<OverrideView>) -> CargoCommandView {
    let rest = match r.kind {
        KindView::Benchmark { bench_name } => bench_rest(r.file_path, bench_name, c, o),
        _ => Seq::empty(),
    };
    cargo_with(
        channel_args(opt_view(c.channel)) + seq!["bench"@] + package_args(pkg) + rest,
        global_env(c) + override_env(o),
    )
}

/// The binary tool names a program other than cargo.
pub open spec fn custom_tool(t: Option<FrameworkView>) -> bool {
    t is Some && t->0.command is Some && t->0.command->0 != "cargo"@
}

/// The binary tool is cargo itself (or there is none).
pub open spec fn cargo_tool(t: Option<FrameworkView>) -> bool {
    t is None || t->0.command is None || t->0.command == Some("cargo"@)
}

/// The binary tool runs `run` (or there is none).
pub open spec fn run_tool(t: Option<FrameworkView>) -> bool {
    t is None || t->0.subcommand is None || t->0.subcommand == Some("run"@)
}

/// The target flags of a binary: `--example` for a file under `examples/`
/// (named by the binary name, else the file stem), `--bin` with the binary
/// name, or with the package name for the binary of `src/main.rs`.
pub open spec fn binary_target_args(path: Seq<char>, bin_name: Option<Seq<char>>, pkg: Option<Seq<char>>) -> Seq<Seq<char>> {
    if seq_contains(path, "examples/"@) {
        seq![
            "--example"@,
            match bin_name {
                Some(n) => n,
                None => match file_stem_spec(path) {
                    Some(s) => s,
                    None => Seq::empty(),
                },
            }
        ]
    } else {
        match bin_name {
            Some(n) => seq!["--bin"@, n],
            None => match pkg {
                Some(p) => seq!["--bin"@, p],
                None => Seq::empty(),
            },
        }
    }
}

/// `cargo [+ch] run|<tool> [--package p] [--bin|--example name] <extra>`,
/// where a tool that is not cargo takes no channel, package or target and
/// its program comes first.
pub open spec fn binary_command(r: RunnableView, pkg: Option<Seq<char>>, c: Config, o: Option<OverrideView>) -> CargoCommandView {
    let tool = opt_framework_view(c.binary_framework);
    let head = match tool {
        Some(t) => (if custom_tool(tool) {
            Seq::empty()
        } else {
            channel_args(or_else(opt_view(c.channel), t.channel))
        }) + match t.subcommand {
            Some(s) => words(s),
            None => seq!["run"@],
        } + opt_list(t.extra_args),
        None => channel_args(opt_view(c.channel)) + seq!["run"@],
    };
    let target = match r.kind {
        KindView::Binary { bin_name } => if cargo_tool(tool) && run_tool(tool) {
            binary_target_args(r.file_path, bin_name, pkg)
        } else {
            Seq::empty()
        },
        _ => Seq::empty(),
    };
    let args = head + (if cargo_tool(tool) {
        package_args(pkg)
    } else {
        Seq::empty()
    }) + target + override_extra(o) + global_extra(c);
    cargo_with(
        if custom_tool(tool) {
            seq![tool->0.command->0] + args
        } else {
            args
        },
        tool_env(tool) + global_env(c) + override_env(o),
    )
}

/// The views of an optional override.
pub open spec fn override_view(o: Option<Override>) -> Option<OverrideView> {
    match o {
        Some(x) => Some(x@),
        None => None,
    }
}

/// The command for a runnable with the settings `c`, by kind; there is no
/// builder for standalone files or single-file scripts.
pub open spec fn v2_command(r: RunnableView, pkg: Option<Seq<char>>, c: Config) -> Option<CargoCommandView> {
    let o = override_view(first_override(c.overrides@, v2_identity(r, opt_view(c.package))));
    match r.kind {
        KindView::DocTest { .. } => Some(doc_test_command(r, pkg, c, o)),
        KindView::Test { .. } => Some(test_command(r, pkg, c, o)),
        KindView::Binary { .. } => Some(binary_command(r, pkg, c, o)),
        KindView::ModuleTests { .. } => Some(module_tests_command(r, pkg, c, o)),
        KindView::Benchmark { .. } => Some(bench_command(r, pkg, c, o)),
        _ => None,
    }
}

fn text(s: &str) -> (r: String)
    ensures
        r@ == s@,
{
    String::from_str(s)
}

/// Appends the items of an optional list.
pub(crate) fn extend_opt(args: &mut Vec<String>, more: &Option<Vec<String>>)
    ensures
        final(args).deep_view() == old(args).deep_view() + opt_list(opt_strings_view(*more)),
{
    match more {
        Some(m) => extend_strings(args, m),
        None => {
            assert(old(args).deep_view() + Seq::<Seq<char>>::empty() =~= old(args).deep_view());
        },
    }
}

/// Appends the pairs of a list.
fn extend_pairs(env: &mut Vec<(String, String)>, more: &Vec<(String, String)>)
    ensures
        final(env).deep_view() == old(env).deep_view() + more.deep_view(),
{
    let ghost start = env.deep_view();
    let mut i: usize = 0;
    while i < more.len()
        invariant
            i <= more.len(),
            env.deep_view() == start + more.deep_view().subrange(0, i as int),
        decreases more.len() - i,
    {
        let k = more[i].0.clone();
        let v = more[i].1.clone();
        let ghost old_r = env@;
        let ghost old_dv = env.deep_view();
        env.push((k, v));
        proof {
            assert forall|j: int| 0 <= j < env@.len() implies env.deep_view()[j] == old_dv.push((k@, v@))[j] by {
                if j < old_r.len() {
                    assert(env@[j] == old_r[j]);
                }
            }
            assert(env.deep_view() =~= old_dv.push((k@, v@)));
            assert(more.deep_view()[i as int] == (k@, v@));
            assert(start + more.deep_view().subrange(0, i + 1) =~= (start + more.deep_view().subrange(0, i as int)).push(
                more.deep_view()[i as int],
            ));
        }
        i = i + 1;
    }
    assert(more.deep_view().subrange(0, more.len() as int) =~= more.deep_view());
}

/// Appends the pairs of an optional list.
fn extend_opt_pairs(env: &mut Vec<(String, String)>, more: &Option<Vec<(String, String)>>)
    ensures
        final(env).deep_view() == old(env).deep_view() + opt_pairs(opt_env_view(*more)),
{
    match more {
        Some(m) => extend_pairs(env, m),
        None => {
            assert(old(env).deep_view() + Seq::<(Seq<char>, Seq<char>)>::empty() =~= old(env).deep_view());
        },
    }
}

/// Appends `+channel` when a channel is given.
fn push_channel(args: &mut Vec<String>, ch: &Option<String>)
    ensures
        final(args).deep_view() == old(args).deep_view() + channel_args(opt_view(*ch)),
{
    match ch {
        Some(c) => {
            push_string(args, concat2("+", c.as_str()));
            proof {
                reveal_strlit("+");
            }
        },
        None => {
            assert(old(args).deep_view() + Seq::<Seq<char>>::empty() =~= old(args).deep_view());
        },
    }
}

/// Appends `--package <name>` when a package is given.
pub(crate) fn push_package(args: &mut Vec<String>, pkg: &Option<String>)
    ensures
        final(args).deep_view() == old(args).deep_view() + package_args(opt_view(*pkg)),
{
    match pkg {
        Some(p) => {
            let ghost a0 = args.deep_view();
            push_string(args, text("--package"));
            push_string(args, p.clone());
            assert(args.deep_view() =~= a0 + seq!["--package"@, p@]);
        },
        None => {
            assert(old(args).deep_view() + Seq::<Seq<char>>::empty() =~= old(args).deep_view());
        },
    }
}

/// Appends the words of a string.
fn push_words(args: &mut Vec<String>, s: &str)
    ensures
        final(args).deep_view() == old(args).deep_view() + words(s@),
{
    let w = split_whitespace(s);
    extend_strings(args, &w);
}

/// The start of a command with an optional tool.
pub(crate) fn tool_head_args(tool: &Option<TestFramework>, channel: &Option<String>, default_sub: &str) -> (r: Vec<String>)
    ensures
        r.deep_view() == tool_head(opt_framework_view(*tool), opt_view(*channel), default_sub@),
{
    let mut args: Vec<String> = Vec::new();
    assert(args.deep_view() =~= Seq::<Seq<char>>::empty());
    match tool {
        Some(t) => {
            let ch = if t.channel.is_some() {
                clone_opt(&t.channel)
            } else {
                clone_opt(channel)
            };
            push_channel(&mut args, &ch);
            match &t.subcommand {
                Some(s) => push_words(&mut args, s.as_str()),
                None => push_string(&mut args, text(default_sub)),
            }
            extend_opt(&mut args, &t.extra_args);
            proof {
                let tv = t@;
                assert(opt_view(ch) == or_else(opt_view(*channel), tv.channel));
                let sub_part = match tv.subcommand {
                    Some(s) => words(s),
                    None => seq![default_sub@],
                };
                assert(args.deep_view() =~= Seq::<Seq<char>>::empty() + channel_args(opt_view(ch)) + sub_part + opt_list(tv.extra_args));
                assert(args.deep_view() =~= channel_args(or_else(opt_view(*channel), tv.channel)) + sub_part + opt_list(tv.extra_args));
            }
        },
        None => {
            push_channel(&mut args, channel);
            push_string(&mut args, text(default_sub));
            assert(args.deep_view() =~= channel_args(opt_view(*channel)) + seq![default_sub@]);
        },
    }
    args
}

/// Appends the target flags of a test.
fn push_test_target(args: &mut Vec<String>, path: &str, pkg: &Option<String>)
    ensures
        final(args).deep_view() == old(args).deep_view() + test_target_args(path@, opt_view(*pkg)),
{
    let ghost a0 = args.deep_view();
    match Target::from_file_path(path) {
        Some(t) => match t {
            Target::Lib => {
                push_string(args, text("--lib"));
                assert(args.deep_view() =~= a0 + seq!["--lib"@]);
            },
            Target::Bin(name) => {
                push_string(args, text("--bin"));
                let is_main = str_eq(name.as_str(), "main");
                match pkg {
                    Some(p) => {
                        if is_main {
                            push_string(args, p.clone());
                        } else {
                            push_string(args, name);
                        }
                    },
                    None => push_string(args, name),
                }
                assert(args.deep_view() =~= a0 + test_target_args(path@, opt_view(*pkg)));
            },
            Target::Test(name) => {
                push_string(args, text("--test"));
                push_string(args, name);
                assert(args.deep_view() =~= a0 + seq!["--test"@, name@]);
            },
            _ => {
                assert(args.deep_view() =~= a0 + Seq::<Seq<char>>::empty());
            },
        },
        None => {
            assert(args.deep_view() =~= a0 + Seq::<Seq<char>>::empty());
        },
    }
}

/// Appends the extra arguments of an override.
pub(crate) fn push_override_extra(args: &mut Vec<String>, o: Option<&Override>)
    ensures
        final(args).deep_view() == old(args).deep_view() + override_extra(match o {
            Some(x) => Some(x@),
            None => None,
        }),
{
    match o {
        Some(x) => extend_opt(args, &x.extra_args),
        None => {
            assert(old(args).deep_view() + Seq::<Seq<char>>::empty() =~= old(args).deep_view());
        },
    }
}

/// Appends the test binary arguments of an override.
pub(crate) fn push_override_binary(args: &mut Vec<String>, o: Option<&Override>)
    ensures
        final(args).deep_view() == old(args).deep_view() + override_binary(match o {
            Some(x) => Some(x@),
            None => None,
        }),
{
    match o {
        Some(x) => extend_opt(args, &x.extra_test_binary_args),
        None => {
            assert(old(args).deep_view() + Seq::<Seq<char>>::empty() =~= old(args).deep_view());
        },
    }
}

/// The variables of the tool, then the global ones, then the override's.
fn command_env(tool: &Option<TestFramework>, c: &Config, o: Option<&Override>) -> (r: Vec<(String, String)>)
    ensures
        r.deep_view() == tool_env(opt_framework_view(*tool)) + global_env(*c) + override_env(match o {
            Some(x) => Some(x@),
            None => None,
        }),
{
    let mut env: Vec<(String, String)> = Vec::new();
    assert(env.deep_view() =~= Seq::<(Seq<char>, Seq<char>)>::empty());
    match tool {
        Some(t) => extend_opt_pairs(&mut env, &t.env),
        None => {},
    }
    let ghost e1 = env.deep_view();
    assert(e1 =~= tool_env(opt_framework_view(*tool)));
    extend_opt_pairs(&mut env, &c.env);
    match o {
        Some(x) => extend_opt_pairs(&mut env, &x.extra_env),
        None => {
            assert(env.deep_view() + Seq::<(Seq<char>, Seq<char>)>::empty() =~= env.deep_view());
        },
    }
    env
}

/// A cargo command with arguments and variables.
fn cargo_command(args: Vec<String>, env: Vec<(String, String)>) -> (r: CargoCommand)
    ensures
        r@ == cargo_with(args.deep_view(), env.deep_view()),
{
    let mut c = CargoCommand::new(args);
    c.env = env;
    c
}

/// The identity the override of a runnable is looked up by.
fn identity_for(r: &Runnable, c: &Config) -> (id: FunctionIdentity)
    ensures
        id@ == v2_identity(r@, opt_view(c.package)),
{
    let function_name = match &r.kind {
        RunnableKind::DocTest { struct_or_module_name, method_name } => match method_name {
            Some(m) => Some(qualify(struct_or_module_name.as_str(), m.as_str())),
            None => Some(struct_or_module_name.clone()),
        },
        RunnableKind::Test { test_name, .. } => Some(test_name.clone()),
        RunnableKind::Binary { bin_name } => clone_opt(bin_name),
        RunnableKind::ModuleTests { module_name } => Some(module_name.clone()),
        RunnableKind::Benchmark { bench_name } => Some(bench_name.clone()),
        _ => None,
    };
    let mod_path = if r.mod_path.unicode_len() == 0 {
        None
    } else {
        Some(r.mod_path.clone())
    };
    FunctionIdentity {
        package: clone_opt(&c.package),
        mod_path,
        file_path: Some(r.file_path.clone()),
        function_name,
    }
}

fn doc_test(r: &Runnable, pkg: &Option<String>, c: &Config, o: Option<&Override>) -> (cmd: CargoCommand)
    ensures
        cmd@ == doc_test_command(r@, opt_view(*pkg), *c, match o {
            Some(x) => Some(x@),
            None => None,
        }),
{
    let ghost ov = match o {
        Some(x) => Some(x@),
        None => None,
    };
    let mut args: Vec<String> = Vec::new();
    push_string(&mut args, text("test"));
    push_string(&mut args, text("--doc"));
    assert(args.deep_view() =~= seq!["test"@, "--doc"@]);
    push_package(&mut args, pkg);
    push_override_extra(&mut args, o);
    extend_opt(&mut args, &c.extra_args);
    let ghost a1 = args.deep_view();
    match &r.kind {
        RunnableKind::DocTest { struct_or_module_name, method_name } => {
            push_string(&mut args, text("--"));
            let path = match method_name {
                Some(m) => qualify(struct_or_module_name.as_str(), m.as_str()),
                None => struct_or_module_name.clone(),
            };
            push_string(&mut args, path);
            push_override_binary(&mut args, o);
            extend_opt(&mut args, &c.extra_test_binary_args);
            assert(args.deep_view() =~= a1 + (seq!["--"@, doc_path(struct_or_module_name@, opt_view(*method_name))]
                + override_binary(ov) + global_binary(*c)));
        },
        _ => {
            assert(args.deep_view() =~= a1 + Seq::<Seq<char>>::empty());
        },
    }
    let env = command_env(&None, c, o);
    assert(env.deep_view() =~= global_env(*c) + override_env(ov));
    cargo_command(args, env)
}

fn test(r: &Runnable, pkg: &Option<String>, c: &Config, o: Option<&Override>) -> (cmd: CargoCommand)
    ensures
        cmd@ == test_command(r@, opt_view(*pkg), *c, match o {
            Some(x) => Some(x@),
            None => None,
        }),
{
    let ghost ov = match o {
        Some(x) => Some(x@),
        None => None,
    };
    let mut args = tool_head_args(&c.test_frameworks, &c.channel, "test");
    push_package(&mut args, pkg);
    push_test_target(&mut args, r.file_path.as_str(), pkg);
    push_override_extra(&mut args, o);
    extend_opt(&mut args, &c.extra_args);
    let ghost a1 = args.deep_view();
    match &r.kind {
        RunnableKind::Test { test_name, .. } => {
            push_string(&mut args, text("--"));
            let path = if r.mod_path.unicode_len() == 0 {
                test_name.clone()
            } else {
                qualify(r.mod_path.as_str(), test_name.as_str())
            };
            push_string(&mut args, path);
            push_string(&mut args, text("--exact"));
            push_override_binary(&mut args, o);
            extend_opt(&mut args, &c.extra_test_binary_args);
            assert(args.deep_view() =~= a1 + (seq!["--"@, in_module(r.mod_path@, test_name@), "--exact"@]
                + override_binary(ov) + global_binary(*c)));
        },
        _ => {
            assert(args.deep_view() =~= a1 + Seq::<Seq<char>>::empty());
        },
    }
    let env = command_env(&c.test_frameworks, c, o);
    cargo_command(args, env)
}

fn module_tests(r: &Runnable, pkg: &Option<String>, c: &Config, o: Option<&Override>) -> (cmd: CargoCommand)
    ensures
        cmd@ == module_tests_command(r@, opt_view(*pkg), *c, match o {
            Some(x) => Some(x@),
            None => None,
        }),
{
    let ghost ov = match o {
        Some(x) => Some(x@),
        None => None,
    };
    let mut args = tool_head_args(&c.test_frameworks, &c.channel, "test");
    push_package(&mut args, pkg);
    push_test_target(&mut args, r.file_path.as_str(), pkg);
    push_override_extra(&mut args, o);
    extend_opt(&mut args, &c.extra_args);
    let ghost a1 = args.deep_view();
    match &r.kind {
        RunnableKind::ModuleTests { module_name } => {
            push_string(&mut args, text("--"));
            push_string(&mut args, module_name.clone());
            push_override_binary(&mut args, o);
            extend_opt(&mut args, &c.extra_test_binary_args);
            assert(args.deep_view() =~= a1 + (seq!["--"@, module_name@] + override_binary(ov) + global_binary(*c)));
        },
        _ => {
            assert(args.deep_view() =~= a1 + Seq::<Seq<char>>::empty());
        },
    }
    let env = command_env(&c.test_frameworks, c, o);
    cargo_command(args, env)
}

fn push_bench_rest(args: &mut Vec<String>, path: &str, name: &String, c: &Config, o: Option<&Override>)
    ensures
        final(args).deep_view() == old(args).deep_view() + bench_rest(path@, name@, *c, match o {
            Some(x) => Some(x@),
            None => None,
        }),
{
    let ghost ov = match o {
        Some(x) => Some(x@),
        None => None,
    };
    let in_benches = contains(path, "benches/");
    let mut rest: Vec<String> = Vec::new();
    if in_benches {
        push_string(&mut rest, text("--bench"));
        push_string(&mut rest, name.clone());
    }
    let ghost r0 = rest.deep_view();
    assert(r0 =~= (if in_benches {
        seq!["--bench"@, name@]
    } else {
        Seq::<Seq<char>>::empty()
    }));
    push_override_extra(&mut rest, o);
    extend_opt(&mut rest, &c.extra_args);
    let ghost r1 = rest.deep_view();
    push_string(&mut rest, text("--"));
    push_string(&mut rest, name.clone());
    let ghost r2 = rest.deep_view();
    assert(r2 =~= r1 + seq!["--"@, name@]);
    push_override_binary(&mut rest, o);
    extend_opt(&mut rest, &c.extra_test_binary_args);
    assert(rest.deep_view() == bench_rest(path@, name@, *c, ov));
    extend_strings(args, &rest);
}

fn bench(r: &Runnable, pkg: &Option<String>, c: &Config, o: Option<&Override>) -> (cmd: CargoCommand)
    ensures
        cmd@ == bench_command(r@, opt_view(*pkg), *c, match o {
            Some(x) => Some(x@),
            None => None,
        }),
{
    let ghost ov = match o {
        Some(x) => Some(x@),
        None => None,
    };
    let mut args: Vec<String> = Vec::new();
    assert(args.deep_view() =~= Seq::<Seq<char>>::empty());
    push_channel(&mut args, &c.channel);
    push_string(&mut args, text("bench"));
    push_package(&mut args, pkg);
    let ghost a1 = args.deep_view();
    assert(a1 =~= channel_args(opt_view(c.channel)) + seq!["bench"@] + package_args(opt_view(*pkg)));
    match &r.kind {
        RunnableKind::Benchmark { bench_name } => {
            push_bench_rest(&mut args, r.file_path.as_str(), bench_name, c, o);
        },
        _ => {
            assert(args.deep_view() =~= a1 + Seq::<Seq<char>>::empty());
        },
    }
    let env = command_env(&None, c, o);
    assert(env.deep_view() =~= global_env(*c) + override_env(ov));
    cargo_command(args, env)
}

/// Appends the target flags of a binary.
fn push_binary_target(args: &mut Vec<String>, path: &str, bin_name: &Option<String>, pkg: &Option<String>)
    ensures
        final(args).deep_view() == old(args).deep_view() + binary_target_args(path@, opt_view(*bin_name), opt_view(*pkg)),
{
    let ghost a0 = args.deep_view();
    if contains(path, "examples/") {
        push_string(args, text("--example"));
        let name = match bin_name {
            Some(n) => n.clone(),
            None => match file_stem(path) {
                Some(s) => s,
                None => String::new(),
            },
        };
        push_string(args, name);
    } else {
        match bin_name {
            Some(n) => {
                push_string(args, text("--bin"));
                push_string(args, n.clone());
            },
            None => match pkg {
                Some(p) => {
                    push_string(args, text("--bin"));
                    push_string(args, p.clone());
                },
                None => {},
            },
        }
    }
    assert(args.deep_view() =~= a0 + binary_target_args(path@, opt_view(*bin_name), opt_view(*pkg)));
}

fn binary(r: &Runnable, pkg: &Option<String>, c: &Config, o: Option<&Override>) -> (cmd: CargoCommand)
    ensures
        cmd@ == binary_command(r@, opt_view(*pkg), *c, match o {
            Some(x) => Some(x@),
            None => None,
        }),
{
    let ghost ov = match o {
        Some(x) => Some(x@),
        None => None,
    };
    let ghost tool = opt_framework_view(c.binary_framework);
    let mut args: Vec<String> = Vec::new();
    assert(args.deep_view() =~= Seq::<Seq<char>>::empty());
    let mut custom: Option<String> = None;
    let mut is_cargo = true;
    let mut is_run = true;
    match &c.binary_framework {
        Some(t) => {
            match &t.command {
                Some(cmd) => {
                    if str_eq(cmd.as_str(), "cargo") {
                    } else {
                        custom = Some(cmd.clone());
                        is_cargo = false;
                    }
                },
                None => {},
            }
            match &t.subcommand {
                Some(s) => {
                    if !str_eq(s.as_str(), "run") {
                        is_run = false;
                    }
                },
                None => {},
            }
            if custom.is_none() {
                let ch = if t.channel.is_some() {
                    clone_opt(&t.channel)
                } else {
                    clone_opt(&c.channel)
                };
                push_channel(&mut args, &ch);
            }
            match &t.subcommand {
                Some(s) => push_words(&mut args, s.as_str()),
                None => push_string(&mut args, text("run")),
            }
            extend_opt(&mut args, &t.extra_args);
            proof {
                let tv = t@;
                let sub_part = match tv.subcommand {
                    Some(s) => words(s),
                    None => seq!["run"@],
                };
                let ch_part = if custom_tool(tool) {
                    Seq::<Seq<char>>::empty()
                } else {
                    channel_args(or_else(opt_view(c.channel), tv.channel))
                };
                assert(args.deep_view() =~= ch_part + sub_part + opt_list(tv.extra_args));
            }
        },
        None => {
            push_channel(&mut args, &c.channel);
            push_string(&mut args, text("run"));
            assert(args.deep_view() =~= channel_args(opt_view(c.channel)) + seq!["run"@]);
        },
    }
    assert(is_cargo == cargo_tool(tool));
    assert(is_run == run_tool(tool));
    assert(custom.is_some() == custom_tool(tool));
    assert(custom.is_some() ==> opt_view(custom) == Some(tool->0.command->0));
    let ghost head = args.deep_view();
    if is_cargo {
        push_package(&mut args, pkg);
    } else {
        assert(args.deep_view() =~= head + Seq::<Seq<char>>::empty());
    }
    let ghost a2 = args.deep_view();
    match &r.kind {
        RunnableKind::Binary { bin_name } => {
            if is_cargo && is_run {
                push_binary_target(&mut args, r.file_path.as_str(), bin_name, pkg);
            } else {
                assert(args.deep_view() =~= a2 + Seq::<Seq<char>>::empty());
            }
        },
        _ => {
            assert(args.deep_view() =~= a2 + Seq::<Seq<char>>::empty());
        },
    }
    push_override_extra(&mut args, o);
    extend_opt(&mut args, &c.extra_args);
    let ghost plain = args.deep_view();
    let final_args = match custom {
        Some(cmd) => {
            let mut all: Vec<String> = Vec::new();
            push_string(&mut all, cmd);
            extend_strings(&mut all, &args);
            assert(all.deep_view() =~= seq![tool->0.command->0] + plain);
            all
        },
        None => args,
    };
    let env = command_env(&c.binary_framework, c, o);
    cargo_command(final_args, env)
}

/// Builds the command for one runnable.
pub struct CommandBuilder<'a> {
    runnable: &'a Runnable,
    package_name: Option<String>,
    project_root: Option<String>,
    config_override: Option<Config>,
}

impl<'a> CommandBuilder<'a> {
    /// A builder for the runnable, with no package, root or settings yet.
    pub fn for_runnable(runnable: &'a Runnable) -> (r: Self)
        ensures
            r.runnable() == *runnable,
            r.package_name() is None,
            r.project_root() is None,
            r.config_override() is None,
    {
        CommandBuilder { runnable, package_name: None, project_root: None, config_override: None }
    }

    /// The runnable the command is for.
    pub closed spec fn runnable(&self) -> Runnable {
        *self.runnable
    }

    /// The package name given.
    pub closed spec fn package_name(&self) -> Option<Seq<char>> {
        opt_view(self.package_name)
    }

    /// The project root given.
    pub closed spec fn project_root(&self) -> Option<Seq<char>> {
        opt_view(self.project_root)
    }

    /// The settings given in place of the loaded ones.
    pub closed spec fn config_override(&self) -> Option<Config> {
        self.config_override
    }

    /// Sets the package name.
    pub fn with_package(self, package: &str) -> (r: Self)
        ensures
            r.runnable() == self.runnable(),
            r.package_name() == Some(package@),
            r.project_root() == self.project_root(),
            r.config_override() == self.config_override(),
    {
        let mut s = self;
        s.package_name = Some(text(package));
        s
    }

    /// Sets the project root.
    pub fn with_project_root(self, root: &str) -> (r: Self)
        ensures
            r.runnable() == self.runnable(),
            r.package_name() == self.package_name(),
            r.project_root() == Some(root@),
            r.config_override() == self.config_override(),
    {
        let mut s = self;
        s.project_root = Some(text(root));
        s
    }

    /// Uses these settings instead of the ones loaded for the runnable.
    pub fn with_config(self, config: Config) -> (r: Self)
        ensures
            r.runnable() == self.runnable(),
            r.package_name() == self.package_name(),
            r.project_root() == self.project_root(),
            r.config_override() == Some(config),
    {
        let mut s = self;
        s.config_override = Some(config);
        s
    }

    /// Whether settings were given, so that none need loading.
    pub fn has_config(&self) -> (r: bool)
        ensures
            r == self.config_override() is Some,
    {
        self.config_override.is_some()
    }

    /// The project root, for finding the settings when the runnable's file
    /// gives none.
    pub fn get_project_root(&self) -> (r: Option<String>)
        ensures
            opt_view(r) == self.project_root(),
    {
        clone_opt(&self.project_root)
    }

    /// The command for the runnable, with the settings given to the builder
    /// or else `loaded`, the settings found for the runnable's file. There
    /// is no builder for standalone files and single-file scripts.
    pub fn build_with(self, loaded: Config) -> (r: Result<CargoCommand, Error>)
        ensures
            ({
                let c = match self.config_override() {
                    Some(c) => c,
                    None => loaded,
                };
                match r {
                    Ok(cmd) => v2_command(self.runnable()@, self.package_name(), c) == Some(cmd@),
                    Err(_) => v2_command(self.runnable()@, self.package_name(), c) is None,
                }
            }),
    {
        let config = match self.config_override {
            Some(c) => c,
            None => loaded,
        };
        let r = self.runnable;
        let identity = identity_for(r, &config);
        let o = config.find_override(&identity);
        let pkg = self.package_name;
        match &r.kind {
            RunnableKind::DocTest { .. } => Ok(doc_test(r, &pkg, &config, o)),
            RunnableKind::Test { .. } => Ok(test(r, &pkg, &config, o)),
            RunnableKind::Binary { .. } => Ok(binary(r, &pkg, &config, o)),
            RunnableKind::ModuleTests { .. } => Ok(module_tests(r, &pkg, &config, o)),
            RunnableKind::Benchmark { .. } => Ok(bench(r, &pkg, &config, o)),
            _ => Err(Error::ConfigError(text("no command builder for standalone files or single-file scripts"))),
        }
    }
}

} // verus!
