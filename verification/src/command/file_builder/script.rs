//! Single-file scripts: the shebang line says which tool runs the script
//! (`cargo +nightly -Zscript`, `rust-script`, ...); tests and benchmarks of
//! a script run under `cargo +nightly -Zscript` with the script as manifest.
use vstd::prelude::*;

use crate::command::cargo_command::{plain_command, CargoCommand, CargoCommandView, CommandType};
use crate::command::file_builder::{
    cfg_extra_args, cfg_extra_env, env_or_empty, extra_args_for, extra_env_for, file_only_identity, find_override,
    list_copy, list_or_empty, override_for, with_envs, FileConfig,
};
use crate::error::Error;
use crate::strings::{is_prefix, owned, slice_from, split_whitespace, starts_with, str_eq, words};
use crate::types::{extend_strings, push_string, FileType, FunctionIdentity, Runnable, RunnableKind};

verus! {

/// The words of a shebang line after `#!`, without a leading
/// `/usr/bin/env` (and the `-S` after it); none when the line does not
/// start with `#!`.
pub open spec fn shebang_words(shebang: Seq<char>) -> Seq<Seq<char>> {
    if is_prefix("#!"@, shebang) {
        let w = words(shebang.subrange(2, shebang.len() as int));
        let start: int = if w.len() > 0 && w[0] == "/usr/bin/env"@ {
            if w.len() > 1 && w[1] == "-S"@ {
                2
            } else {
                1
            }
        } else {
            0
        };
        w.subrange(start, w.len() as int)
    } else {
        Seq::empty()
    }
}

/// The shebang runs cargo: its first word is `cargo`.
pub open spec fn shebang_runs_cargo(shebang: Seq<char>) -> bool {
    let w = shebang_words(shebang);
    w.len() > 0 && w[0] == "cargo"@
}

/// The arguments a shebang line gives: its words, without a leading `cargo`
/// (the cargo command supplies it).
pub open spec fn shebang_args(shebang: Seq<char>) -> Seq<Seq<char>> {
    let w = shebang_words(shebang);
    if shebang_runs_cargo(shebang) {
        w.subrange(1, w.len() as int)
    } else {
        w
    }
}

/// The shebang a script runs with: its first line when that starts with
/// `#!`, otherwise `#!/usr/bin/env -S cargo +nightly -Zscript`.
pub open spec fn shebang_spec(first_line: Option<Seq<char>>) -> Seq<char> {
    match first_line {
        Some(l) => if is_prefix("#!"@, l) {
            l
        } else {
            "#!/usr/bin/env -S cargo +nightly -Zscript"@
        },
        None => "#!/usr/bin/env -S cargo +nightly -Zscript"@,
    }
}

/// The arguments a shebang line gives: its words after `#!`, without a
/// leading `/usr/bin/env` (and the `-S` after it) and without a leading
/// `cargo`.
pub fn parse_shebang_args(shebang: &str) -> (r: Vec<String>)
    ensures
        r.deep_view() == shebang_args(shebang@),
{
    let words = shebang_words_of(shebang);
    let ghost w = words.deep_view();
    if words.len() > 0 && str_eq(words[0].as_str(), "cargo") {
        let mut out: Vec<String> = Vec::new();
        let mut i: usize = 1;
        assert(out.deep_view() =~= w.subrange(1, 1));
        while i < words.len()
            invariant
                1 <= i <= words@.len(),
                w == words.deep_view(),
                out.deep_view() == w.subrange(1, i as int),
            decreases words.len() - i,
        {
            push_string(&mut out, words[i].clone());
            assert(out.deep_view() =~= w.subrange(1, i + 1));
            i = i + 1;
        }
        out
    } else {
        words
    }
}

/// The words of the shebang line that name the tool and its arguments.
fn shebang_words_of(shebang: &str) -> (r: Vec<String>)
    ensures
        r.deep_view() == shebang_words(shebang@),
{
    if !starts_with(shebang, "#!") {
        let r: Vec<String> = Vec::new();
        assert(r.deep_view() =~= Seq::<Seq<char>>::empty());
        return r;
    }
    proof {
        reveal_strlit("#!");
    }
    let rest = slice_from(shebang, 2);
    let w = split_whitespace(rest.as_str());
    let start: usize = if w.len() > 0 && str_eq(w[0].as_str(), "/usr/bin/env") {
        if w.len() > 1 && str_eq(w[1].as_str(), "-S") {
            2
        } else {
            1
        }
    } else {
        0
    };
    let ghost wv = w.deep_view();
    let mut out: Vec<String> = Vec::new();
    let mut i: usize = start;
    assert(out.deep_view() =~= wv.subrange(start as int, start as int));
    while i < w.len()
        invariant
            start <= i <= w@.len(),
            wv == w.deep_view(),
            out.deep_view() == wv.subrange(start as int, i as int),
        decreases w.len() - i,
    {
        push_string(&mut out, w[i].clone());
        assert(out.deep_view() =~= wv.subrange(start as int, i + 1));
        i = i + 1;
    }
    out
}

/// The shebang a script runs with, from its first line (when it has one).
pub fn shebang_of(first_line: Option<&str>) -> (r: String)
    ensures
        r@ == shebang_spec(match first_line {
            Some(l) => Some(l@),
            None => None,
        }),
{
    match first_line {
        Some(l) => {
            if starts_with(l, "#!") {
                owned(l)
            } else {
                owned("#!/usr/bin/env -S cargo +nightly -Zscript")
            }
        },
        None => owned("#!/usr/bin/env -S cargo +nightly -Zscript"),
    }
}

/// The script block of the first override matching the runnable.
pub open spec fn ov_script_args(c: FileConfig, r: Runnable) -> Seq<Seq<char>> {
    match override_for(c, file_only_identity(r)) {
        Some(o) => match o.single_file_script {
            Some(x) => list_or_empty(x.extra_args),
            None => Seq::empty(),
        },
        None => Seq::empty(),
    }
}

/// The script variables of the first override matching the runnable.
pub open spec fn ov_script_env(c: FileConfig, r: Runnable) -> Seq<(Seq<char>, Seq<char>)> {
    match override_for(c, file_only_identity(r)) {
        Some(o) => match o.single_file_script {
            Some(x) => env_or_empty(x.extra_env),
            None => Seq::empty(),
        },
        None => Seq::empty(),
    }
}

/// The command that runs a script: cargo with the shebang's arguments when
/// the shebang runs cargo (or names nothing), otherwise the tool the shebang
/// names; the script's path follows, then the extra arguments.
pub open spec fn script_run_command(shebang: Seq<char>, file: Seq<char>, extra: Seq<Seq<char>>) -> CargoCommandView {
    let w = shebang_words(shebang);
    if w.len() == 0 || shebang_runs_cargo(shebang) {
        plain_command(CommandType::Cargo, shebang_args(shebang) + seq![file] + extra)
    } else {
        plain_command(CommandType::Shell, w + seq![file] + extra)
    }
}

/// `cargo +nightly -Zscript <sub> --manifest-path <script>`.
pub open spec fn script_cargo_head(sub: Seq<char>, file: Seq<char>) -> Seq<Seq<char>> {
    seq!["+nightly"@, "-Zscript"@, sub, "--manifest-path"@, file]
}

/// The command for a runnable of a single-file script, before variables;
/// `None` for a doc test, which scripts do not have.
pub open spec fn script_base(r: Runnable, c: FileConfig, ft: FileType, shebang: Seq<char>) -> Option<CargoCommandView> {
    let file = r.file_path@;
    let extra = ov_script_args(c, r) + cfg_extra_args(c, ft);
    match r.kind {
        RunnableKind::Test { test_name, .. } => Some(
            plain_command(CommandType::Cargo, script_cargo_head("test"@, file) + extra + seq!["--"@, test_name@]),
        ),
        RunnableKind::ModuleTests { .. } => Some(plain_command(CommandType::Cargo, script_cargo_head("test"@, file) + extra)),
        RunnableKind::Benchmark { bench_name } => Some(
            plain_command(CommandType::Cargo, script_cargo_head("bench"@, file) + extra + seq!["--"@, bench_name@]),
        ),
        RunnableKind::DocTest { .. } => None,
        _ => Some(script_run_command(shebang, file, extra)),
    }
}

/// The command for a runnable of a single-file script: its base command
/// with the variables for the kind of file, then those of the matching
/// override's script block.
pub open spec fn script_command(r: Runnable, c: FileConfig, ft: FileType, shebang: Seq<char>) -> Option<CargoCommandView> {
    match script_base(r, c, ft, shebang) {
        Some(b) => Some(CargoCommandView { env: b.env + cfg_extra_env(c, ft) + ov_script_env(c, r), ..b }),
        None => None,
    }
}

/// Builds the commands of single-file scripts.
pub struct SingleFileScriptBuilder;

impl SingleFileScriptBuilder {
    /// The identity overrides are matched by: the file and the function.
    pub fn create_identity(runnable: &Runnable) -> (r: FunctionIdentity)
        ensures
            r@ == file_only_identity(*runnable),
    {
        FunctionIdentity {
            package: None,
            mod_path: None,
            file_path: Some(runnable.file_path.clone()),
            function_name: runnable.get_function_name(),
        }
    }

    /// The command for a runnable of a single-file script whose shebang
    /// line is `shebang`; doc tests are refused.
    pub fn build(runnable: &Runnable, config: &FileConfig, file_type: FileType, shebang: &str) -> (r: Result<CargoCommand, Error>)
        ensures
            match script_command(*runnable, *config, file_type, shebang@) {
                Some(c) => r matches Ok(cmd) && cmd@ == c,
                None => r matches Err(Error::ParseError(m)) && m@ == "Unsupported runnable type for single file script"@,
            },
    {
        let id = Self::create_identity(runnable);
        let o = find_override(config, &id);
        let (ov_args, ov_env) = match o {
            Some(x) => match &x.single_file_script {
                Some(s) => (list_copy(&s.extra_args), crate::command::file_builder::env_copy(&s.extra_env)),
                None => (list_copy(&None), crate::command::file_builder::env_copy(&None)),
            },
            None => (list_copy(&None), crate::command::file_builder::env_copy(&None)),
        };
        assert(ov_args.deep_view() == ov_script_args(*config, *runnable));
        assert(ov_env.deep_view() == ov_script_env(*config, *runnable));
        let mut extra = ov_args;
        let global = extra_args_for(config, file_type);
        extend_strings(&mut extra, &global);
        let file = runnable.file_path.clone();
        let base = match &runnable.kind {
            RunnableKind::Test { test_name, .. } => {
                let mut args = Self::cargo_head("test", file);
                let ghost h = args.deep_view();
                extend_strings(&mut args, &extra);
                push_string(&mut args, owned("--"));
                push_string(&mut args, test_name.clone());
                assert(args.deep_view() =~= h + extra.deep_view() + seq!["--"@, test_name@]);
                CargoCommand::new(args)
            },
            RunnableKind::ModuleTests { .. } => {
                let mut args = Self::cargo_head("test", file);
                extend_strings(&mut args, &extra);
                CargoCommand::new(args)
            },
            RunnableKind::Benchmark { bench_name } => {
                let mut args = Self::cargo_head("bench", file);
                let ghost h = args.deep_view();
                extend_strings(&mut args, &extra);
                push_string(&mut args, owned("--"));
                push_string(&mut args, bench_name.clone());
                assert(args.deep_view() =~= h + extra.deep_view() + seq!["--"@, bench_name@]);
                CargoCommand::new(args)
            },
            RunnableKind::DocTest { .. } => {
                return Err(Error::ParseError(owned("Unsupported runnable type for single file script")));
            },
            _ => Self::run_command(shebang, file, &extra),
        };
        assert(extra.deep_view() == ov_script_args(*config, *runnable) + cfg_extra_args(*config, file_type));
        assert(base@ == script_base(*runnable, *config, file_type, shebang@)->0);
        let env = extra_env_for(config, file_type);
        let cmd = with_envs(base, &env);
        let cmd = with_envs(cmd, &ov_env);
        proof {
            assert(cmd@.env =~= script_base(*runnable, *config, file_type, shebang@)->0.env + cfg_extra_env(*config, file_type) + ov_script_env(*config, *runnable));
        }
        Ok(cmd)
    }

    fn cargo_head(sub: &str, file: String) -> (r: Vec<String>)
        ensures
            r.deep_view() == script_cargo_head(sub@, file@),
    {
        let mut v: Vec<String> = Vec::new();
        push_string(&mut v, owned("+nightly"));
        push_string(&mut v, owned("-Zscript"));
        push_string(&mut v, owned(sub));
        push_string(&mut v, owned("--manifest-path"));
        push_string(&mut v, file);
        assert(v.deep_view() =~= script_cargo_head(sub@, file@));
        v
    }

    fn run_command(shebang: &str, file: String, extra: &Vec<String>) -> (r: CargoCommand)
        ensures
            r@ == script_run_command(shebang@, file@, extra.deep_view()),
    {
        let w = shebang_words_of(shebang);
        let ghost wv = w.deep_view();
        let cargo_first = w.len() > 0 && str_eq(w[0].as_str(), "cargo");
        assert(cargo_first == shebang_runs_cargo(shebang@)) by {
            if w.len() > 0 {
                assert(wv[0] == w@[0]@);
            }
        }
        if w.len() == 0 || cargo_first {
            let mut args = parse_shebang_args(shebang);
            let ghost a0 = args.deep_view();
            push_string(&mut args, file);
            extend_strings(&mut args, extra);
            assert(args.deep_view() =~= a0 + seq![file@] + extra.deep_view());
            CargoCommand::new(args)
        } else {
            let mut args = w;
            push_string(&mut args, file);
            extend_strings(&mut args, extra);
            assert(args.deep_view() =~= wv + seq![file@] + extra.deep_view());
            let env = crate::command::cargo_command::no_env();
            CargoCommand {
                command_type: CommandType::Shell,
                args,
                working_dir: None,
                env,
                test_filter: None,
            }
        }
    }
}

} // verus!
