//! Files of cargo projects: `cargo test` with the target the file's place
//! in the project names, `cargo test --doc` with the doc test's rustdoc
//! name, `cargo bench` and `cargo run`.
use vstd::prelude::*;

use crate::command::builder::runnable_identity;
use crate::command::cargo_command::{plain_command, CargoCommand, CargoCommandView, CommandType};
use crate::command::file_builder::{
    cfg_channel, cfg_extra_args, cfg_extra_env, cfg_package, cfg_test_binary_args, channel_for, env_copy,
    env_or_empty, extra_args_for, extra_env_for, find_override, identity_for, list_copy, list_or_empty, ov_cargo,
    test_binary_args_for, with_envs, FileConfig,
};
use crate::error::Error;
use crate::paths::{components, components_of, file_stem, file_stem_spec, replace_char};
use crate::strings::{
    concat2, concat3, contains, ends_with, is_prefix, is_suffix, owned, seq_contains, slice, slice_from, starts_with,
    str_eq,
};
use crate::types::{clone_opt, extend_strings, opt_view, push_string, FileType, FunctionIdentity, IdentityView, Runnable, RunnableKind};

verus! {

/// The identity a runnable of a cargo project is matched by: the package of
/// the cargo settings, its module, its file and its function.
pub open spec fn cargo_identity(r: Runnable, c: FileConfig) -> IdentityView {
    runnable_identity(r, cfg_package(c))
}

/// The extra arguments of the cargo block of the first matching override.
pub open spec fn ov_cargo_args(c: FileConfig, r: Runnable) -> Seq<Seq<char>> {
    match ov_cargo(c, cargo_identity(r, c)) {
        Some(x) => list_or_empty(x.extra_args),
        None => Seq::empty(),
    }
}

/// The test binary arguments of the cargo block of the first matching override.
pub open spec fn ov_cargo_test_binary_args(c: FileConfig, r: Runnable) -> Seq<Seq<char>> {
    match ov_cargo(c, cargo_identity(r, c)) {
        Some(x) => list_or_empty(x.extra_test_binary_args),
        None => Seq::empty(),
    }
}

/// The variables of the cargo block of the first matching override.
pub open spec fn ov_cargo_env(c: FileConfig, r: Runnable) -> Seq<(Seq<char>, Seq<char>)> {
    match ov_cargo(c, cargo_identity(r, c)) {
        Some(x) => env_or_empty(x.extra_env),
        None => Seq::empty(),
    }
}

/// `+<channel>` when the settings name one, then the subcommand.
pub open spec fn channel_head(c: FileConfig, ft: FileType, sub: Seq<char>) -> Seq<Seq<char>> {
    match cfg_channel(c, ft) {
        Some(ch) => seq!["+"@ + ch, sub],
        None => seq![sub],
    }
}

/// `--package <name>` for a package with a non-empty name.
pub open spec fn package_args(package: Option<Seq<char>>) -> Seq<Seq<char>> {
    match package {
        Some(p) => if p.len() > 0 {
            seq!["--package"@, p]
        } else {
            Seq::empty()
        },
        None => Seq::empty(),
    }
}

/// The command run in the project's root directory, when one was found.
pub open spec fn in_root(b: CargoCommandView, root: Option<Seq<char>>) -> CargoCommandView {
    match root {
        Some(d) => CargoCommandView { working_dir: Some(d), ..b },
        None => b,
    }
}

/// The file lies in a `tests` directory: its directory is named `tests`,
/// or a directory named `tests` lies between two others on its path.
pub open spec fn in_tests_dir(file: Seq<char>) -> bool {
    let p = dir_components(file);
    (p.len() > 0 && p.last() == "tests"@) || exists|k: int|
        1 <= k < dir_components(file).len() - 1 && #[trigger] dir_components(file)[k] == "tests"@
}

/// The components of the file's directory.
pub open spec fn dir_components(file: Seq<char>) -> Seq<Seq<char>> {
    let c = components(file);
    if c.len() > 0 {
        c.drop_last()
    } else {
        c
    }
}

/// The file is a library source: under `src/` (or `lib.rs` itself), not a
/// `main.rs`, not under `bin/`.
pub open spec fn lib_source(f: Seq<char>) -> bool {
    &&& (seq_contains(f, "/src/"@) || is_prefix("src/"@, f) || f == "lib.rs"@)
    &&& !is_suffix("/main.rs"@, f)
    &&& !is_suffix("main.rs"@, f)
    &&& !seq_contains(f, "/bin/"@)
}

/// `<flag> <stem>` when the file has a stem.
pub open spec fn stem_flag(flag: Seq<char>, f: Seq<char>) -> Seq<Seq<char>> {
    match file_stem_spec(f) {
        Some(s) => seq![flag, s],
        None => Seq::empty(),
    }
}

/// The target a test file's place names: `--test <stem>` in a `tests`
/// directory, `--lib` for a library source, `--example <stem>` under
/// `examples/`, `--bin <package>` for `src/main.rs` and `--bin <stem>` under
/// `src/bin/`.
pub open spec fn test_target_args(f: Seq<char>, package: Option<Seq<char>>) -> Seq<Seq<char>> {
    if in_tests_dir(f) {
        stem_flag("--test"@, f)
    } else if lib_source(f) {
        seq!["--lib"@]
    } else if seq_contains(f, "/examples/"@) || is_prefix("examples/"@, f) {
        stem_flag("--example"@, f)
    } else if is_suffix("/src/main.rs"@, f) {
        match package {
            Some(p) => seq!["--bin"@, p],
            None => Seq::empty(),
        }
    } else if seq_contains(f, "/src/bin/"@) {
        stem_flag("--bin"@, f)
    } else {
        Seq::empty()
    }
}

/// The test's full name: its module's path, `::` and its name.
pub open spec fn full_test_name(mod_path: Seq<char>, name: Seq<char>) -> Seq<char> {
    if mod_path.len() == 0 {
        name
    } else {
        mod_path + "::"@ + name
    }
}

/// For a test, `--`, its full name, `--exact`, then the test binary
/// arguments of the matching override and of the settings.
pub open spec fn test_filter_args(r: Runnable, c: FileConfig, ft: FileType) -> Seq<Seq<char>> {
    match r.kind {
        RunnableKind::Test { test_name, .. } => seq!["--"@, full_test_name(r.mod_path@, test_name@), "--exact"@]
            + ov_cargo_test_binary_args(c, r) + cfg_test_binary_args(c, ft),
        _ => Seq::empty(),
    }
}

/// The variables of a cargo command: the settings', then the override's.
pub open spec fn with_cargo_env(b: CargoCommandView, r: Runnable, c: FileConfig, ft: FileType) -> CargoCommandView {
    CargoCommandView { env: b.env + cfg_extra_env(c, ft) + ov_cargo_env(c, r), ..b }
}

/// `cargo test` for a runnable of a cargo project.
pub open spec fn test_command(r: Runnable, package: Option<Seq<char>>, c: FileConfig, ft: FileType, root: Option<Seq<char>>) -> CargoCommandView {
    let args = channel_head(c, ft, "test"@) + package_args(package) + test_target_args(r.file_path@, package)
        + ov_cargo_args(c, r) + cfg_extra_args(c, ft) + test_filter_args(r, c, ft);
    with_cargo_env(in_root(plain_command(CommandType::Cargo, args), root), r, c, ft)
}

/// The cargo override block's lists for a runnable: extra arguments, test
/// binary arguments and variables.
fn cargo_override_lists(runnable: &Runnable, config: &FileConfig) -> (r: (Vec<String>, Vec<String>, Vec<(String, String)>))
    ensures
        r.0.deep_view() == ov_cargo_args(*config, *runnable),
        r.1.deep_view() == ov_cargo_test_binary_args(*config, *runnable),
        r.2.deep_view() == ov_cargo_env(*config, *runnable),
{
    let package = match &config.cargo {
        Some(x) => clone_opt(&x.package),
        None => None,
    };
    let id = identity_for(runnable, package);
    match find_override(config, &id) {
        Some(o) => match &o.cargo {
            Some(x) => (list_copy(&x.extra_args), list_copy(&x.extra_test_binary_args), env_copy(&x.extra_env)),
            None => (list_copy(&None), list_copy(&None), env_copy(&None)),
        },
        None => (list_copy(&None), list_copy(&None), env_copy(&None)),
    }
}

/// `+<channel>` and the subcommand.
fn head_args(config: &FileConfig, ft: FileType, sub: &str) -> (r: Vec<String>)
    ensures
        r.deep_view() == channel_head(*config, ft, sub@),
{
    let mut v: Vec<String> = Vec::new();
    match channel_for(config, ft) {
        Some(ch) => push_string(&mut v, concat2("+", ch.as_str())),
        None => {},
    }
    push_string(&mut v, owned(sub));
    assert(v.deep_view() =~= channel_head(*config, ft, sub@));
    v
}

/// `--package <name>` for a non-empty name.
fn push_package(args: &mut Vec<String>, package: Option<&str>)
    ensures
        final(args).deep_view() == old(args).deep_view() + package_args(match package {
            Some(p) => Some(p@),
            None => None,
        }),
{
    match package {
        Some(p) => {
            if p.unicode_len() > 0 {
                let ghost a0 = args.deep_view();
                push_string(args, owned("--package"));
                push_string(args, owned(p));
                assert(args.deep_view() =~= a0 + seq!["--package"@, p@]);
            } else {
                assert(args.deep_view() =~= old(args).deep_view() + Seq::<Seq<char>>::empty());
            }
        },
        None => {
            assert(args.deep_view() =~= old(args).deep_view() + Seq::<Seq<char>>::empty());
        },
    }
}

/// `<flag> <stem>` when the file has a stem.
fn push_stem_flag(args: &mut Vec<String>, flag: &str, f: &str)
    ensures
        final(args).deep_view() == old(args).deep_view() + stem_flag(flag@, f@),
{
    match file_stem(f) {
        Some(s) => {
            let ghost a0 = args.deep_view();
            push_string(args, owned(flag));
            push_string(args, s);
            assert(args.deep_view() =~= a0 + stem_flag(flag@, f@));
        },
        None => {
            assert(args.deep_view() =~= old(args).deep_view() + stem_flag(flag@, f@));
        },
    }
}

/// Whether the file lies in a `tests` directory.
fn is_in_tests_dir(f: &str) -> (r: bool)
    ensures
        r == in_tests_dir(f@),
{
    let c = components_of(f);
    let n = c.len();
    if n == 0 {
        return false;
    }
    let ghost p = c.deep_view().drop_last();
    let m = n - 1;
    if m > 0 && str_eq(c[m - 1].as_str(), "tests") {
        assert(p.last() == c.deep_view()[m - 1]);
        return true;
    }
    if m >= 2 {
        let mut k: usize = 1;
        while k < m - 1
            invariant
                n == c@.len(),
                m == n - 1,
                m >= 2,
                1 <= k <= m - 1,
                c.deep_view() == components(f@),
                p == c.deep_view().drop_last(),
                forall|j: int| 1 <= j < k ==> p[j] != "tests"@,
            decreases m - k,
        {
            if str_eq(c[k].as_str(), "tests") {
                assert(p[k as int] == c.deep_view()[k as int]);
                assert(p[k as int] == "tests"@);
                assert(components(f@).len() > 0);
                assert(p == components(f@).drop_last());
                assert(dir_components(f@) == p);
                assert(dir_components(f@)[k as int] == "tests"@);
                return true;
            }
            assert(p[k as int] == c.deep_view()[k as int]);
            k = k + 1;
        }
    }
    assert(!(m > 0 && p.last() == "tests"@));
    false
}

/// The target arguments of a test file.
fn push_test_target(args: &mut Vec<String>, f: &str, package: Option<&str>)
    ensures
        final(args).deep_view() == old(args).deep_view() + test_target_args(f@, match package {
            Some(p) => Some(p@),
            None => None,
        }),
{
    if is_in_tests_dir(f) {
        push_stem_flag(args, "--test", f);
        return;
    }
    let lib = (contains(f, "/src/") || starts_with(f, "src/") || str_eq(f, "lib.rs")) && !ends_with(f, "/main.rs")
        && !ends_with(f, "main.rs") && !contains(f, "/bin/");
    if lib {
        let ghost a0 = args.deep_view();
        push_string(args, owned("--lib"));
        assert(args.deep_view() =~= a0 + seq!["--lib"@]);
        return;
    }
    if contains(f, "/examples/") || starts_with(f, "examples/") {
        push_stem_flag(args, "--example", f);
        return;
    }
    if ends_with(f, "/src/main.rs") {
        match package {
            Some(p) => {
                let ghost a0 = args.deep_view();
                push_string(args, owned("--bin"));
                push_string(args, owned(p));
                assert(args.deep_view() =~= a0 + seq!["--bin"@, p@]);
            },
            None => {
                assert(args.deep_view() =~= old(args).deep_view() + Seq::<Seq<char>>::empty());
            },
        }
        return;
    }
    if contains(f, "/src/bin/") {
        push_stem_flag(args, "--bin", f);
        return;
    }
    assert(args.deep_view() =~= old(args).deep_view() + Seq::<Seq<char>>::empty());
}

/// Builds `cargo test` commands.
pub struct TestCommandBuilder;

impl TestCommandBuilder {
    /// The target flags for a test file: `--test`, `--lib`, `--example` or
    /// `--bin`, from where the file lies in the project.
    pub fn add_target(args: &mut Vec<String>, file_path: &str, package: Option<&str>)
        ensures
            final(args).deep_view() == old(args).deep_view() + test_target_args(file_path@, match package {
                Some(p) => Some(p@),
                None => None,
            }),
    {
        push_test_target(args, file_path, package);
    }

    /// `cargo test` for a runnable of a cargo project, in the project's root
    /// directory `cargo_root` when one was found.
    pub fn build(runnable: &Runnable, package: Option<&str>, config: &FileConfig, file_type: FileType, cargo_root: Option<&str>) -> (r: Result<CargoCommand, Error>)
        ensures
            r matches Ok(cmd) && cmd@ == test_command(*runnable, match package {
                Some(p) => Some(p@),
                None => None,
            }, *config, file_type, match cargo_root {
                Some(d) => Some(d@),
                None => None,
            }),
    {
        let (ov_args, ov_tb, ov_env) = cargo_override_lists(runnable, config);
        let mut args = head_args(config, file_type, "test");
        push_package(&mut args, package);
        Self::add_target(&mut args, runnable.file_path.as_str(), package);
        extend_strings(&mut args, &ov_args);
        let global = extra_args_for(config, file_type);
        extend_strings(&mut args, &global);
        let ghost before_filter = args.deep_view();
        match &runnable.kind {
            RunnableKind::Test { test_name, .. } => {
                push_string(&mut args, owned("--"));
                let full = if runnable.mod_path.unicode_len() == 0 {
                    test_name.clone()
                } else {
                    concat3(runnable.mod_path.as_str(), "::", test_name.as_str())
                };
                push_string(&mut args, full);
                push_string(&mut args, owned("--exact"));
                extend_strings(&mut args, &ov_tb);
                let tb = test_binary_args_for(config, file_type);
                extend_strings(&mut args, &tb);
            },
            _ => {},
        }
        assert(args.deep_view() =~= before_filter + test_filter_args(*runnable, *config, file_type));
        let mut cmd = CargoCommand::new(args);
        match cargo_root {
            Some(d) => {
                cmd = cmd.with_working_dir(owned(d));
            },
            None => {},
        }
        let env = extra_env_for(config, file_type);
        let cmd = with_envs(cmd, &env);
        let cmd = with_envs(cmd, &ov_env);
        proof {
            let pkg = match package {
                Some(p) => Some(p@),
                None => None,
            };
            let spec = test_command(*runnable, pkg, *config, file_type, match cargo_root {
                Some(d) => Some(d@),
                None => None,
            });
            assert(cmd@.env =~= spec.env);
            assert(cmd@.args =~= spec.args);
        }
        Ok(cmd)
    }
}


/// What is left of a module path once the package's name (as written, or
/// with `-` read as `_`) is taken off its front; `None` when the path is the
/// package itself.
pub open spec fn strip_package(mod_path: Seq<char>, package: Option<Seq<char>>) -> Option<Seq<char>> {
    match package {
        None => Some(mod_path),
        Some(p) => {
            let q = replace_char(p, '-', '_');
            if mod_path == p {
                None
            } else if is_prefix(p + "::"@, mod_path) {
                Some(mod_path.subrange(p.len() + 2int, mod_path.len() as int))
            } else if mod_path == q {
                None
            } else if is_prefix(q + "::"@, mod_path) {
                Some(mod_path.subrange(q.len() + 2int, mod_path.len() as int))
            } else {
                Some(mod_path)
            }
        },
    }
}

/// The module path rustdoc names a doc test under: the module path without
/// the package's name, empty when nothing is left or only the item is.
pub open spec fn rustdoc_prefix_spec(mod_path: Seq<char>, package: Option<Seq<char>>, item: Seq<char>) -> Seq<char> {
    if mod_path.len() == 0 {
        Seq::empty()
    } else {
        match strip_package(mod_path, package) {
            None => Seq::empty(),
            Some(path) => if path == item {
                Seq::empty()
            } else {
                path
            },
        }
    }
}

/// The doc test's item: the type or module (without a leading `impl `),
/// then `::` and the method when there is one.
pub open spec fn doc_item(name: Seq<char>, method: Option<Seq<char>>) -> Seq<char> {
    let clean = if is_prefix("impl "@, name) {
        name.subrange(5, name.len() as int)
    } else {
        name
    };
    match method {
        Some(m) => clean + "::"@ + m,
        None => clean,
    }
}

/// The rustdoc filter of a doc test: the item under its module prefix.
pub open spec fn doc_test_id(mod_path: Seq<char>, package: Option<Seq<char>>, item: Seq<char>) -> Seq<char> {
    let prefix = rustdoc_prefix_spec(mod_path, package, item);
    if prefix.len() == 0 {
        item
    } else if prefix == item || is_suffix("::"@ + item, prefix) {
        prefix
    } else {
        prefix + "::"@ + item
    }
}

/// `cargo test --doc` for a doc test runnable; `None` for another kind.
pub open spec fn doc_test_command(r: Runnable, package: Option<Seq<char>>, c: FileConfig, ft: FileType, root: Option<Seq<char>>) -> Option<CargoCommandView> {
    match r.kind {
        RunnableKind::DocTest { struct_or_module_name, method_name } => {
            let id = doc_test_id(r.mod_path@, package, doc_item(struct_or_module_name@, opt_view(method_name)));
            let args = channel_head(c, ft, "test"@) + seq!["--doc"@] + package_args(package) + ov_cargo_args(c, r)
                + cfg_extra_args(c, ft) + seq!["--"@, id] + ov_cargo_test_binary_args(c, r) + cfg_test_binary_args(c, ft);
            Some(with_cargo_env(in_root(plain_command(CommandType::Cargo, args), root), r, c, ft))
        },
        _ => None,
    }
}

/// `cargo bench` for a runnable of a cargo project, with the benchmark's
/// name as filter.
pub open spec fn bench_command(r: Runnable, package: Option<Seq<char>>, c: FileConfig, ft: FileType, root: Option<Seq<char>>) -> CargoCommandView {
    let filter = match r.kind {
        RunnableKind::Benchmark { bench_name } => seq!["--"@, bench_name@],
        _ => Seq::empty(),
    };
    let args = channel_head(c, ft, "bench"@) + package_args(package) + ov_cargo_args(c, r) + cfg_extra_args(c, ft)
        + filter;
    with_cargo_env(in_root(plain_command(CommandType::Cargo, args), root), r, c, ft)
}

/// The target of `cargo run`: `--example <stem>` under `/examples/`, else
/// the runnable's binary name, else the file's stem unless it is `main`,
/// else the package's name.
pub open spec fn run_target_args(r: Runnable, package: Option<Seq<char>>) -> Seq<Seq<char>> {
    let f = r.file_path@;
    if seq_contains(f, "/examples/"@) {
        stem_flag("--example"@, f)
    } else {
        match r.kind {
            RunnableKind::Binary { bin_name: Some(n) } => seq!["--bin"@, n@],
            _ => match file_stem_spec(f) {
                Some(s) => if s != "main"@ {
                    seq!["--bin"@, s]
                } else {
                    match package {
                        Some(p) => seq!["--bin"@, p],
                        None => Seq::empty(),
                    }
                },
                None => Seq::empty(),
            },
        }
    }
}

/// `cargo run` for a runnable of a cargo project.
pub open spec fn run_command(r: Runnable, package: Option<Seq<char>>, root: Option<Seq<char>>) -> CargoCommandView {
    in_root(plain_command(CommandType::Cargo, seq!["run"@] + package_args(package) + run_target_args(r, package)), root)
}

/// `s` with every `-` read as `_`.
fn dashes_to_underscores(s: &str) -> (r: String)
    ensures
        r@ == replace_char(s@, '-', '_'),
{
    let n = s.unicode_len();
    let mut out = String::new();
    let mut k: usize = 0;
    while k < n
        invariant
            n == s@.len(),
            k <= n,
            out@ == replace_char(s@.subrange(0, k as int), '-', '_'),
        decreases n - k,
    {
        let c = s.get_char(k);
        let ghost before = out@;
        proof {
            assert(s@.subrange(0, k + 1) =~= s@.subrange(0, k as int).push(c));
            assert(replace_char(s@.subrange(0, k + 1), '-', '_') =~= replace_char(s@.subrange(0, k as int), '-', '_').push(
                if c == '-' { '_' } else { c },
            ));
        }
        if c == '-' {
            out.append("_");
            proof { reveal_strlit("_"); }
            assert(out@ =~= before.push('_'));
        } else {
            let one = slice(s, k, k + 1);
            out.append(one.as_str());
            assert(out@ =~= before.push(c));
        }
        k = k + 1;
    }
    assert(s@.subrange(0, n as int) =~= s@);
    out
}

/// One step of taking the package's name off a module path.
fn strip_one(mod_path: &str, prefix: &str) -> (r: Option<Option<String>>)
    ensures
        match r {
            None => mod_path@ != prefix@ && !is_prefix(prefix@ + "::"@, mod_path@),
            Some(None) => mod_path@ == prefix@,
            Some(Some(rest)) => mod_path@ != prefix@ && is_prefix(prefix@ + "::"@, mod_path@) && rest@ == mod_path@.subrange(
                prefix@.len() + 2int,
                mod_path@.len() as int,
            ),
        },
{
    if str_eq(mod_path, prefix) {
        return Some(None);
    }
    let with_sep = concat2(prefix, "::");
    if starts_with(mod_path, with_sep.as_str()) {
        proof { reveal_strlit("::"); }
        let k = with_sep.unicode_len();
        assert(k == prefix@.len() + 2);
        Some(Some(slice_from(mod_path, k)))
    } else {
        None
    }
}

/// The module path rustdoc names a doc test under.
pub fn rustdoc_module_prefix(mod_path: &str, package: Option<&str>, item: &str) -> (r: String)
    ensures
        r@ == rustdoc_prefix_spec(mod_path@, match package {
            Some(p) => Some(p@),
            None => None,
        }, item@),
{
    if mod_path.unicode_len() == 0 {
        return String::new();
    }
    let path: String = match package {
        None => owned(mod_path),
        Some(p) => match strip_one(mod_path, p) {
            Some(None) => {
                return String::new();
            },
            Some(Some(rest)) => rest,
            None => {
                let q = dashes_to_underscores(p);
                match strip_one(mod_path, q.as_str()) {
                    Some(None) => {
                        return String::new();
                    },
                    Some(Some(rest)) => rest,
                    None => owned(mod_path),
                }
            },
        },
    };
    if str_eq(path.as_str(), item) {
        String::new()
    } else {
        path
    }
}

/// Builds `cargo test --doc` commands.
pub struct DocTestCommandBuilder;

impl DocTestCommandBuilder {
    /// `cargo test --doc` for a doc test runnable of a cargo project, in the
    /// project's root directory `cargo_root` when one was found; another
    /// kind of runnable is refused.
    pub fn build(runnable: &Runnable, package: Option<&str>, config: &FileConfig, file_type: FileType, cargo_root: Option<&str>) -> (r: Result<CargoCommand, Error>)
        ensures
            match doc_test_command(*runnable, match package {
                Some(p) => Some(p@),
                None => None,
            }, *config, file_type, match cargo_root {
                Some(d) => Some(d@),
                None => None,
            }) {
                Some(c) => r matches Ok(cmd) && cmd@ == c,
                None => r matches Err(Error::ParseError(m)) && m@ == "Expected DocTest runnable"@,
            },
    {
        let id = match &runnable.kind {
            RunnableKind::DocTest { struct_or_module_name, method_name } => {
                let name = struct_or_module_name.as_str();
                let clean = if starts_with(name, "impl ") {
                    proof { reveal_strlit("impl "); }
                    slice_from(name, 5)
                } else {
                    owned(name)
                };
                let item = match method_name {
                    Some(m) => concat3(clean.as_str(), "::", m.as_str()),
                    None => clean,
                };
                let prefix = rustdoc_module_prefix(runnable.mod_path.as_str(), package, item.as_str());
                if prefix.unicode_len() == 0 {
                    item
                } else {
                    let tail = concat2("::", item.as_str());
                    if str_eq(prefix.as_str(), item.as_str()) || ends_with(prefix.as_str(), tail.as_str()) {
                        prefix
                    } else {
                        concat3(prefix.as_str(), "::", item.as_str())
                    }
                }
            },
            _ => {
                return Err(Error::ParseError(owned("Expected DocTest runnable")));
            },
        };
        let (ov_args, ov_tb, ov_env) = cargo_override_lists(runnable, config);
        let mut args = head_args(config, file_type, "test");
        push_string(&mut args, owned("--doc"));
        push_package(&mut args, package);
        extend_strings(&mut args, &ov_args);
        let global = extra_args_for(config, file_type);
        extend_strings(&mut args, &global);
        push_string(&mut args, owned("--"));
        push_string(&mut args, id);
        extend_strings(&mut args, &ov_tb);
        let tb = test_binary_args_for(config, file_type);
        extend_strings(&mut args, &tb);
        let mut cmd = CargoCommand::new(args);
        match cargo_root {
            Some(d) => {
                cmd = cmd.with_working_dir(owned(d));
            },
            None => {},
        }
        let env = extra_env_for(config, file_type);
        let cmd = with_envs(cmd, &env);
        let cmd = with_envs(cmd, &ov_env);
        proof {
            let pkg = match package {
                Some(p) => Some(p@),
                None => None,
            };
            let spec = doc_test_command(*runnable, pkg, *config, file_type, match cargo_root {
                Some(d) => Some(d@),
                None => None,
            })->0;
            assert(cmd@.env =~= spec.env);
            assert(cmd@.args =~= spec.args);
        }
        Ok(cmd)
    }
}

/// Builds `cargo bench` commands.
pub struct BenchmarkCommandBuilder;

impl BenchmarkCommandBuilder {
    /// `cargo bench` for a runnable of a cargo project.
    pub fn build(runnable: &Runnable, package: Option<&str>, config: &FileConfig, file_type: FileType, cargo_root: Option<&str>) -> (r: Result<CargoCommand, Error>)
        ensures
            r matches Ok(cmd) && cmd@ == bench_command(*runnable, match package {
                Some(p) => Some(p@),
                None => None,
            }, *config, file_type, match cargo_root {
                Some(d) => Some(d@),
                None => None,
            }),
    {
        let (ov_args, _ov_tb, ov_env) = cargo_override_lists(runnable, config);
        let mut args = head_args(config, file_type, "bench");
        push_package(&mut args, package);
        extend_strings(&mut args, &ov_args);
        let global = extra_args_for(config, file_type);
        extend_strings(&mut args, &global);
        let ghost before_filter = args.deep_view();
        match &runnable.kind {
            RunnableKind::Benchmark { bench_name } => {
                push_string(&mut args, owned("--"));
                push_string(&mut args, bench_name.clone());
            },
            _ => {},
        }
        let mut cmd = CargoCommand::new(args);
        match cargo_root {
            Some(d) => {
                cmd = cmd.with_working_dir(owned(d));
            },
            None => {},
        }
        let env = extra_env_for(config, file_type);
        let cmd = with_envs(cmd, &env);
        let cmd = with_envs(cmd, &ov_env);
        proof {
            let pkg = match package {
                Some(p) => Some(p@),
                None => None,
            };
            let spec = bench_command(*runnable, pkg, *config, file_type, match cargo_root {
                Some(d) => Some(d@),
                None => None,
            });
            assert(cmd@.env =~= spec.env);
            assert(cmd@.args =~= spec.args);
        }
        Ok(cmd)
    }
}

/// Builds `cargo run` commands.
pub struct BinaryCommandBuilder;

impl BinaryCommandBuilder {
    /// `cargo run` for a runnable of a cargo project, with the target the
    /// file names.
    pub fn build(runnable: &Runnable, package: Option<&str>, cargo_root: Option<&str>) -> (r: Result<CargoCommand, Error>)
        ensures
            r matches Ok(cmd) && cmd@ == run_command(*runnable, match package {
                Some(p) => Some(p@),
                None => None,
            }, match cargo_root {
                Some(d) => Some(d@),
                None => None,
            }),
    {
        let mut args: Vec<String> = Vec::new();
        push_string(&mut args, owned("run"));
        push_package(&mut args, package);
        let ghost before_target = args.deep_view();
        let f = runnable.file_path.as_str();
        if contains(f, "/examples/") {
            push_stem_flag(&mut args, "--example", f);
        } else {
            let named = match &runnable.kind {
                RunnableKind::Binary { bin_name: Some(n) } => Some(n.clone()),
                _ => None,
            };
            match named {
                Some(n) => {
                    push_string(&mut args, owned("--bin"));
                    push_string(&mut args, n);
                },
                None => match file_stem(f) {
                    Some(s) => {
                        if !str_eq(s.as_str(), "main") {
                            push_string(&mut args, owned("--bin"));
                            push_string(&mut args, s);
                        } else {
                            match package {
                                Some(p) => {
                                    push_string(&mut args, owned("--bin"));
                                    push_string(&mut args, owned(p));
                                },
                                None => {},
                            }
                        }
                    },
                    None => {},
                },
            }
        }
        let ghost pkg = match package {
            Some(p) => Some(p@),
            None => None,
        };
        assert(args.deep_view() =~= before_target + run_target_args(*runnable, pkg));
        assert(args.deep_view() =~= seq!["run"@] + package_args(pkg) + run_target_args(*runnable, pkg));
        let mut cmd = CargoCommand::new(args);
        match cargo_root {
            Some(d) => {
                cmd = cmd.with_working_dir(owned(d));
            },
            None => {},
        }
        Ok(cmd)
    }
}

} // verus!
