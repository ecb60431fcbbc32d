//! A command to run, how it is shown as a shell line, and which program it launches.
use vstd::prelude::*;

use crate::command::cargo_command::{args_contain, find_output_flag, first_output_flag, no_env, output_flag_at};
use crate::env::{env_insert, env_set};
use crate::strings::{is_prefix, slice, starts_with, str_eq};
use crate::types::{opt_strings_view, opt_view};

verus! {

/// How a command is launched.
#[derive(Debug, Clone, Copy, PartialEq, Eq, Structural)]
pub enum CommandStrategy {
    Cargo,
    CargoScript,
    Rustc,
    Shell,
    Bazel,
}

/// A command: the program, its arguments, and what runs around it.
#[derive(Debug)]
pub struct Command {
    pub strategy: CommandStrategy,
    pub program: String,
    pub args: Vec<String>,
    pub working_dir: Option<String>,
    /// Environment variables, one pair per key.
    pub env: Vec<(String, String)>,
    pub test_filter: Option<String>,
    /// Rustc: args passed to the compiled binary when it runs.
    pub exec_args: Option<Vec<String>>,
    /// Rustc: the output is piped through this command.
    pub pipe_command: Option<String>,
    /// Rustc: extra args for the test binary.
    pub test_binary_args: Option<Vec<String>>,
    /// Rustc: a wrapper that runs the compiler, such as `rustup run nightly`.
    /// Kept apart from `program`/`args` so a toolchain does not change the strategy.
    pub compiler_prefix: Option<Vec<String>>,
}

/// A character a shell takes literally outside quotes.
pub open spec fn is_shell_safe(c: char) -> bool {
    ||| ('a' <= c && c <= 'z')
    ||| ('A' <= c && c <= 'Z')
    ||| ('0' <= c && c <= '9')
    ||| c == '_'
    ||| c == '-'
    ||| c == '.'
    ||| c == '/'
    ||| c == ':'
    ||| c == '='
    ||| c == '+'
    ||| c == ','
}

/// Every character of `s` is taken literally by a shell.
pub open spec fn all_shell_safe(s: Seq<char>) -> bool {
    forall|i: int| 0 <= i < s.len() ==> is_shell_safe(s[i])
}

/// `s` with every single quote written as `'\''`.
pub open spec fn escape_single_quotes(s: Seq<char>) -> Seq<char>
    decreases s.len(),
{
    if s.len() == 0 {
        Seq::empty()
    } else if s.last() == '\'' {
        escape_single_quotes(s.drop_last()) + "'\\''"@
    } else {
        escape_single_quotes(s.drop_last()).push(s.last())
    }
}

/// A value quoted for `sh -c`: left bare when non-empty and made only of
/// characters a shell takes literally, otherwise wrapped in single quotes
/// with each inner quote escaped.
pub open spec fn shell_quote_spec(v: Seq<char>) -> Seq<char> {
    if v.len() > 0 && all_shell_safe(v) {
        v
    } else {
        "'"@ + escape_single_quotes(v) + "'"@
    }
}

/// Each argument preceded by a space and quoted for the shell.
pub open spec fn quoted_args(args: Seq<Seq<char>>) -> Seq<char>
    decreases args.len(),
{
    if args.len() == 0 {
        Seq::empty()
    } else {
        quoted_args(args.drop_last()) + " "@ + shell_quote_spec(args.last())
    }
}

/// The arguments separated by single spaces, as is.
pub open spec fn plain_joined(args: Seq<Seq<char>>) -> Seq<char>
    decreases args.len(),
{
    if args.len() == 0 {
        Seq::empty()
    } else if args.len() == 1 {
        args[0]
    } else {
        plain_joined(args.drop_last()) + " "@ + args.last()
    }
}

/// An exec argument that is a placeholder and is left out.
pub open spec fn is_placeholder(a: Seq<char>) -> bool {
    a == "{bench_name}"@ || a == "{test_name}"@
}

/// Each exec argument that is not a placeholder, preceded by a space and
/// quoted for the shell.
pub open spec fn exec_part(args: Seq<Seq<char>>) -> Seq<char>
    decreases args.len(),
{
    if args.len() == 0 {
        Seq::empty()
    } else if is_placeholder(args.last()) {
        exec_part(args.drop_last())
    } else {
        exec_part(args.drop_last()) + " "@ + shell_quote_spec(args.last())
    }
}

/// The path that runs a compiled output: kept when absolute or `./`-relative,
/// otherwise prefixed with `./`.
pub open spec fn exec_path(output: Seq<char>) -> Seq<char> {
    if is_prefix("/"@, output) || is_prefix("./"@, output) {
        output
    } else {
        "./"@ + output
    }
}

/// The compiler invocation: `rustc`, behind the prefix when there is a non-empty one.
pub open spec fn compiler_head(prefix: Option<Seq<Seq<char>>>) -> Seq<char> {
    match prefix {
        Some(p) => if p.len() > 0 {
            plain_joined(p) + " rustc"@
        } else {
            "rustc"@
        },
        None => "rustc"@,
    }
}

/// The text after the run of the output binary for a test build: the exec
/// arguments, the test filter and the test binary arguments, each preceded
/// by a space and quoted for the shell, so that a copied preview means what
/// it shows.
pub open spec fn test_tail(c: Command) -> Seq<char> {
    let e = match opt_strings_view(c.exec_args) {
        Some(a) => exec_part(a),
        None => Seq::empty(),
    };
    let f = match opt_view(c.test_filter) {
        Some(t) => " "@ + shell_quote_spec(t),
        None => Seq::empty(),
    };
    let b = match opt_strings_view(c.test_binary_args) {
        Some(a) => quoted_args(a),
        None => Seq::empty(),
    };
    e + f + b
}

/// The shell line of a rustc command: the compile, followed by running the
/// output with the test arguments and through the pipe.
pub open spec fn rustc_shell_line(c: Command) -> Seq<char> {
    let args = c.args.deep_view();
    let compile = compiler_head(opt_strings_view(c.compiler_prefix)) + quoted_args(args);
    let o = first_output_flag(args);
    if o < 0 {
        compile
    } else {
        let run = compile + " && "@ + exec_path(args[o + 1]);
        let with_test = if args.contains("--test"@) {
            run + test_tail(c)
        } else {
            run
        };
        match opt_view(c.pipe_command) {
            Some(p) => with_test + " | "@ + p,
            None => with_test,
        }
    }
}

/// The shell line of a command.
pub open spec fn command_shell_line(c: Command) -> Seq<char> {
    match c.strategy {
        CommandStrategy::Rustc => rustc_shell_line(c),
        CommandStrategy::Shell => c.program@ + quoted_args(c.args.deep_view()),
        CommandStrategy::CargoScript | CommandStrategy::Cargo => "cargo"@ + quoted_args(c.args.deep_view()),
        CommandStrategy::Bazel => "bazel"@ + quoted_args(c.args.deep_view()),
    }
}

/// The program a command launches.
pub open spec fn resolved_program_spec(c: Command) -> Seq<char> {
    match c.strategy {
        CommandStrategy::Rustc => "rustc"@,
        CommandStrategy::Shell => c.program@,
        CommandStrategy::CargoScript | CommandStrategy::Cargo => "cargo"@,
        CommandStrategy::Bazel => "bazel"@,
    }
}

/// Whether `c` is taken literally by a shell.
fn shell_safe_char(c: char) -> (r: bool)
    ensures
        r == is_shell_safe(c),
{
    ('a' <= c && c <= 'z') || ('A' <= c && c <= 'Z') || ('0' <= c && c <= '9') || c == '_' || c
        == '-' || c == '.' || c == '/' || c == ':' || c == '=' || c == '+' || c == ','
}

/// The path that runs a compiled output.
fn render_exec_path(output: &str) -> (r: String)
    ensures
        r@ == exec_path(output@),
{
    if starts_with(output, "/") || starts_with(output, "./") {
        output.to_owned()
    } else {
        let mut p = String::from_str("./");
        p.append(output);
        p
    }
}

/// Quote a value for `sh -c`. Single quotes suppress every expansion; `'\''`
/// closes, writes a literal quote, and reopens.
pub fn shell_quote(value: &str) -> (r: String)
    ensures
        r@ == shell_quote_spec(value@),
{
    let n = value.unicode_len();
    let mut safe = n > 0;
    let mut i: usize = 0;
    while i < n
        invariant
            n == value@.len(),
            i <= n,
            safe == (n > 0 && forall|j: int| 0 <= j < i ==> is_shell_safe(value@[j])),
        decreases n - i,
    {
        if !shell_safe_char(value.get_char(i)) {
            safe = false;
        }
        i = i + 1;
    }
    if safe {
        return value.to_owned();
    }
    let mut out = String::from_str("'");
    let mut k: usize = 0;
    while k < n
        invariant
            n == value@.len(),
            k <= n,
            out@ == "'"@ + escape_single_quotes(value@.subrange(0, k as int)),
        decreases n - k,
    {
        let c = value.get_char(k);
        let ghost sub = value@.subrange(0, k + 1);
        assert(sub.drop_last() =~= value@.subrange(0, k as int));
        assert(sub.last() == c);
        if c == '\'' {
            out.append("'\\''");
        } else {
            let one = slice(value, k, k + 1);
            assert(one@ =~= seq![c]);
            out.append(one.as_str());
        }
        assert(out@ =~= "'"@ + escape_single_quotes(sub));
        k = k + 1;
    }
    assert(value@.subrange(0, n as int) =~= value@);
    out.append("'");
    out
}

/// How a shell reading one word stands after some text: the word read so
/// far, and whether it is outside quotes (0), inside single quotes (1), or
/// just after a backslash outside quotes (2); `None` once the text is not a
/// single word (whitespace or another character the shell acts on, outside
/// quotes).
pub type ShellState = Option<(Seq<char>, u8)>;

/// The shell reads one more character.
pub open spec fn sh_step(st: ShellState, c: char) -> ShellState {
    match st {
        None => None,
        Some((w, m)) => if m == 1 {
            if c == '\'' {
                Some((w, 0u8))
            } else {
                Some((w.push(c), 1u8))
            }
        } else if m == 2 {
            Some((w.push(c), 0u8))
        } else if c == '\'' {
            Some((w, 1u8))
        } else if c == '\\' {
            Some((w, 2u8))
        } else if is_shell_safe(c) {
            Some((w.push(c), 0u8))
        } else {
            None
        },
    }
}

/// The shell reads the text from the given state on.
pub open spec fn sh_run(st: ShellState, s: Seq<char>) -> ShellState
    decreases s.len(),
{
    if s.len() == 0 {
        st
    } else {
        sh_step(sh_run(st, s.drop_last()), s.last())
    }
}

/// The single word the shell reads from the text, when the text is one
/// complete word.
pub open spec fn sh_read(s: Seq<char>) -> Option<Seq<char>> {
    match sh_run(Some((Seq::empty(), 0u8)), s) {
        Some((w, m)) => if m == 0 {
            Some(w)
        } else {
            None
        },
        None => None,
    }
}

/// Reading two texts in turn is reading them joined.
proof fn lemma_sh_run_append(st: ShellState, a: Seq<char>, b: Seq<char>)
    ensures
        sh_run(st, a + b) == sh_run(sh_run(st, a), b),
    decreases b.len(),
{
    if b.len() == 0 {
        assert(a + b =~= a);
    } else {
        lemma_sh_run_append(st, a, b.drop_last());
        assert((a + b).drop_last() =~= a + b.drop_last());
        assert((a + b).last() == b.last());
    }
}

/// Outside quotes, characters the shell takes literally are read as they are.
proof fn lemma_sh_run_safe(w: Seq<char>, v: Seq<char>)
    requires
        all_shell_safe(v),
    ensures
        sh_run(Some((w, 0u8)), v) == Some((w + v, 0u8)),
    decreases v.len(),
{
    if v.len() == 0 {
        assert(w + v =~= w);
    } else {
        let p = v.drop_last();
        assert(all_shell_safe(p)) by {
            assert forall|i: int| 0 <= i < p.len() implies is_shell_safe(p[i]) by {
                assert(p[i] == v[i]);
            }
        }
        lemma_sh_run_safe(w, p);
        assert(is_shell_safe(v[v.len() - 1]));
        assert((w + p).push(v.last()) =~= w + v);
    }
}

/// Inside quotes, the escaped text is read as the text, still inside quotes.
proof fn lemma_sh_run_escaped(w: Seq<char>, v: Seq<char>)
    ensures
        sh_run(Some((w, 1u8)), escape_single_quotes(v)) == Some((w + v, 1u8)),
    decreases v.len(),
{
    if v.len() == 0 {
        assert(w + v =~= w);
    } else {
        let p = v.drop_last();
        lemma_sh_run_escaped(w, p);
        if v.last() == '\'' {
            let q = "'\\''"@;
            lemma_sh_run_append(Some((w, 1u8)), escape_single_quotes(p), q);
            reveal_strlit("'\\''");
            let s0: ShellState = Some((w + p, 1u8));
            let q1 = seq!['\''];
            let q2 = seq!['\'', '\\'];
            let q3 = seq!['\'', '\\', '\''];
            assert(q =~= seq!['\'', '\\', '\'', '\'']);
            assert(q1.drop_last() =~= Seq::<char>::empty());
            assert(q2.drop_last() =~= q1);
            assert(q3.drop_last() =~= q2);
            assert(q.drop_last() =~= q3);
            assert(sh_run(s0, Seq::<char>::empty()) == s0);
            assert(sh_run(s0, q1) == Some((w + p, 0u8)));
            assert(sh_run(s0, q2) == Some((w + p, 2u8)));
            assert(sh_run(s0, q3) == Some(((w + p).push('\''), 0u8)));
            assert(sh_run(s0, q) == Some(((w + p).push('\''), 1u8)));
            assert((w + p).push('\'') =~= w + v);
        } else {
            assert(escape_single_quotes(v) == escape_single_quotes(p).push(v.last()));
            assert(escape_single_quotes(v).drop_last() =~= escape_single_quotes(p));
            assert(escape_single_quotes(v).last() == v.last());
            assert((w + p).push(v.last()) =~= w + v);
        }
    }
}

/// The shell reads a quoted value back as exactly that value, as one word:
/// no value (a test name taken from the source, say) can close the quoting
/// or bring in shell syntax.
pub proof fn lemma_shell_quote_reads_back(v: Seq<char>)
    ensures
        sh_read(shell_quote_spec(v)) == Some(v),
{
    let init: ShellState = Some((Seq::<char>::empty(), 0u8));
    if v.len() > 0 && all_shell_safe(v) {
        lemma_sh_run_safe(Seq::empty(), v);
        assert(Seq::<char>::empty() + v =~= v);
    } else {
        reveal_strlit("'");
        let open = "'"@;
        let e = escape_single_quotes(v);
        assert(open.len() == 1 && open[0] == '\'');
        lemma_sh_run_append(init, open, e);
        lemma_sh_run_append(init, open + e, open);
        assert(open.drop_last() =~= Seq::<char>::empty());
        assert(sh_run(init, Seq::<char>::empty()) == init);
        assert(sh_run(init, open) == Some((Seq::<char>::empty(), 1u8)));
        assert(sh_run(Some((v, 1u8)), Seq::<char>::empty()) == Some((v, 1u8)));
        lemma_sh_run_escaped(Seq::empty(), v);
        assert(Seq::<char>::empty() + v =~= v);
        assert(sh_run(init, open + e) == Some((v, 1u8)));
        assert(sh_run(Some((v, 1u8)), open) == Some((v, 0u8)));
    }
}

/// `head` followed by every argument, each preceded by a space and quoted.
fn render_quoted(head: &str, args: &Vec<String>) -> (r: String)
    ensures
        r@ == head@ + quoted_args(args.deep_view()),
{
    let mut cmd = String::from_str(head);
    let mut i: usize = 0;
    while i < args.len()
        invariant
            i <= args.len(),
            cmd@ == head@ + quoted_args(args.deep_view().subrange(0, i as int)),
        decreases args.len() - i,
    {
        cmd.append(" ");
        let q = shell_quote(args[i].as_str());
        cmd.append(q.as_str());
        proof {
            let s = args.deep_view().subrange(0, i + 1);
            assert(s.drop_last() =~= args.deep_view().subrange(0, i as int));
            assert(cmd@ =~= head@ + quoted_args(s));
        }
        i = i + 1;
    }
    assert(args.deep_view().subrange(0, args.len() as int) =~= args.deep_view());
    cmd
}

/// Appends each argument, preceded by a space.
fn push_quoted_args(cmd: &mut String, args: &Vec<String>)
    ensures
        final(cmd)@ == old(cmd)@ + quoted_args(args.deep_view()),
{
    let ghost start = cmd@;
    let mut i: usize = 0;
    while i < args.len()
        invariant
            i <= args.len(),
            cmd@ == start + quoted_args(args.deep_view().subrange(0, i as int)),
        decreases args.len() - i,
    {
        cmd.append(" ");
        let q = shell_quote(args[i].as_str());
        cmd.append(q.as_str());
        proof {
            let s = args.deep_view().subrange(0, i + 1);
            assert(s.drop_last() =~= args.deep_view().subrange(0, i as int));
            assert(cmd@ =~= start + quoted_args(s));
        }
        i = i + 1;
    }
    assert(args.deep_view().subrange(0, args.len() as int) =~= args.deep_view());
}

/// Appends each exec argument that is not a placeholder, preceded by a space.
fn push_exec_args(cmd: &mut String, args: &Vec<String>)
    ensures
        final(cmd)@ == old(cmd)@ + exec_part(args.deep_view()),
{
    let ghost start = cmd@;
    let mut i: usize = 0;
    while i < args.len()
        invariant
            i <= args.len(),
            cmd@ == start + exec_part(args.deep_view().subrange(0, i as int)),
        decreases args.len() - i,
    {
        let a = args[i].as_str();
        if !str_eq(a, "{bench_name}") && !str_eq(a, "{test_name}") {
            cmd.append(" ");
            let q = shell_quote(a);
            cmd.append(q.as_str());
        }
        proof {
            let s = args.deep_view().subrange(0, i + 1);
            assert(s.drop_last() =~= args.deep_view().subrange(0, i as int));
            assert(s.last() == a@);
            assert(cmd@ =~= start + exec_part(s));
        }
        i = i + 1;
    }
    assert(args.deep_view().subrange(0, args.len() as int) =~= args.deep_view());
}

/// The arguments separated by single spaces, as is.
fn render_plain_joined(args: &Vec<String>) -> (r: String)
    ensures
        r@ == plain_joined(args.deep_view()),
{
    let mut cmd = String::new();
    let mut i: usize = 0;
    while i < args.len()
        invariant
            i <= args.len(),
            cmd@ == plain_joined(args.deep_view().subrange(0, i as int)),
        decreases args.len() - i,
    {
        if i > 0 {
            cmd.append(" ");
        }
        cmd.append(args[i].as_str());
        proof {
            let s = args.deep_view().subrange(0, i + 1);
            assert(s.drop_last() =~= args.deep_view().subrange(0, i as int));
            assert(cmd@ =~= plain_joined(s));
        }
        i = i + 1;
    }
    assert(args.deep_view().subrange(0, args.len() as int) =~= args.deep_view());
    cmd
}

/// The compiler invocation for a rustc command.
fn render_compiler_head(prefix: &Option<Vec<String>>) -> (r: String)
    ensures
        r@ == compiler_head(opt_strings_view(*prefix)),
{
    match prefix {
        Some(p) => {
            if p.len() > 0 {
                let mut h = render_plain_joined(p);
                h.append(" rustc");
                h
            } else {
                String::from_str("rustc")
            }
        },
        None => String::from_str("rustc"),
    }
}

impl Command {
    /// The text of a new command: no working directory, environment or rustc extras.
    pub open spec fn is_fresh(self, strategy: CommandStrategy, program: Seq<char>, args: Seq<Seq<char>>) -> bool {
        &&& self.strategy == strategy
        &&& self.program@ == program
        &&& self.args.deep_view() == args
        &&& self.working_dir.is_none()
        &&& self.env.deep_view().len() == 0
        &&& self.test_filter.is_none()
        &&& self.exec_args.is_none()
        &&& self.pipe_command.is_none()
        &&& self.test_binary_args.is_none()
        &&& self.compiler_prefix.is_none()
    }

    pub fn new(strategy: CommandStrategy, program: &str, args: Vec<String>) -> (r: Self)
        ensures
            r.is_fresh(strategy, program@, args.deep_view()),
    {
        Command {
            strategy,
            program: program.to_owned(),
            args,
            working_dir: None,
            env: no_env(),
            test_filter: None,
            exec_args: None,
            pipe_command: None,
            test_binary_args: None,
            compiler_prefix: None,
        }
    }

    pub fn cargo(args: Vec<String>) -> (r: Self)
        ensures
            r.is_fresh(CommandStrategy::Cargo, "cargo"@, args.deep_view()),
    {
        Self::new(CommandStrategy::Cargo, "cargo", args)
    }

    pub fn rustc(args: Vec<String>) -> (r: Self)
        ensures
            r.is_fresh(CommandStrategy::Rustc, "rustc"@, args.deep_view()),
    {
        Self::new(CommandStrategy::Rustc, "rustc", args)
    }

    pub fn shell(program: &str, args: Vec<String>) -> (r: Self)
        ensures
            r.is_fresh(CommandStrategy::Shell, program@, args.deep_view()),
    {
        Self::new(CommandStrategy::Shell, program, args)
    }

    pub fn cargo_script(args: Vec<String>) -> (r: Self)
        ensures
            r.is_fresh(CommandStrategy::CargoScript, "cargo"@, args.deep_view()),
    {
        Self::new(CommandStrategy::CargoScript, "cargo", args)
    }

    pub fn bazel(args: Vec<String>) -> (r: Self)
        ensures
            r.is_fresh(CommandStrategy::Bazel, "bazel"@, args.deep_view()),
    {
        Self::new(CommandStrategy::Bazel, "bazel", args)
    }

    pub fn with_working_dir(self, dir: &str) -> (r: Self)
        ensures
            r == (Command { working_dir: r.working_dir, ..self }),
            opt_view(r.working_dir) == Some(dir@),
    {
        let mut s = self;
        s.working_dir = Some(dir.to_owned());
        s
    }

    /// Sets an environment variable, replacing its value when it is already set.
    pub fn with_env(self, key: &str, value: &str) -> (r: Self)
        ensures
            r == (Command { env: r.env, ..self }),
            r.env.deep_view() == env_insert(self.env.deep_view(), key@, value@),
    {
        let mut s = self;
        env_set(&mut s.env, key.to_owned(), value.to_owned());
        s
    }

    pub fn with_test_filter(self, filter: &str) -> (r: Self)
        ensures
            r == (Command { test_filter: r.test_filter, ..self }),
            opt_view(r.test_filter) == Some(filter@),
    {
        let mut s = self;
        s.test_filter = Some(filter.to_owned());
        s
    }

    /// The command as one shell line. Arguments are quoted for the shell; for
    /// rustc the line compiles, and runs the output with the test arguments.
    pub fn to_shell_command(&self) -> (r: String)
        ensures
            r@ == command_shell_line(*self),
    {
        match self.strategy {
            CommandStrategy::Rustc => self.render_rustc(),
            CommandStrategy::Shell => render_quoted(self.program.as_str(), &self.args),
            CommandStrategy::CargoScript | CommandStrategy::Cargo => render_quoted("cargo", &self.args),
            CommandStrategy::Bazel => render_quoted("bazel", &self.args),
        }
    }

    fn render_rustc(&self) -> (r: String)
        ensures
            r@ == rustc_shell_line(*self),
    {
        let head = render_compiler_head(&self.compiler_prefix);
        let mut cmd = render_quoted(head.as_str(), &self.args);
        let ghost args = self.args.deep_view();
        let ghost compile = cmd@;
        assert(compile == compiler_head(opt_strings_view(self.compiler_prefix)) + quoted_args(args));
        let o = find_output_flag(&self.args);
        match o {
            Some(i) => {
                let n = self.args.len();
                assert(output_flag_at(args, i as int));
                assert(i + 1 < n);
                let p = render_exec_path(self.args[i + 1].as_str());
                cmd.append(" && ");
                cmd.append(p.as_str());
                let ghost run = cmd@;
                assert(run == compile + " && "@ + exec_path(args[i + 1]));
                let is_test = args_contain(&self.args, "--test");
                if is_test {
                    self.push_test_tail(&mut cmd);
                }
                let ghost with_test = cmd@;
                assert(with_test == if args.contains("--test"@) {
                    run + test_tail(*self)
                } else {
                    run
                });
                match &self.pipe_command {
                    Some(p) => {
                        cmd.append(" | ");
                        cmd.append(p.as_str());
                    },
                    None => {},
                }
                assert(first_output_flag(args) == i);
                cmd
            },
            None => cmd,
        }
    }

    fn push_test_tail(&self, cmd: &mut String)
        ensures
            final(cmd)@ == old(cmd)@ + test_tail(*self),
    {
        let ghost start = cmd@;
        match &self.exec_args {
            Some(a) => push_exec_args(cmd, a),
            None => {},
        }
        let ghost e = cmd@;
        match &self.test_filter {
            Some(f) => {
                cmd.append(" ");
                let q = shell_quote(f.as_str());
                cmd.append(q.as_str());
            },
            None => {},
        }
        let ghost f = cmd@;
        match &self.test_binary_args {
            Some(a) => push_quoted_args(cmd, a),
            None => {},
        }
        assert(cmd@ =~= start + test_tail(*self));
    }

    /// The program this command launches: the strategy decides whether
    /// `program` or a fixed tool name is used.
    pub fn resolved_program(&self) -> (r: &str)
        ensures
            r@ == resolved_program_spec(*self),
    {
        match self.strategy {
            CommandStrategy::Rustc => "rustc",
            CommandStrategy::Shell => self.program.as_str(),
            CommandStrategy::CargoScript | CommandStrategy::Cargo => "cargo",
            CommandStrategy::Bazel => "bazel",
        }
    }
}

/// The exec arguments that are not placeholders.
pub open spec fn real_exec_args(args: Seq<Seq<char>>) -> Seq<Seq<char>>
    decreases args.len(),
{
    if args.len() == 0 {
        Seq::empty()
    } else if is_placeholder(args.last()) {
        real_exec_args(args.drop_last())
    } else {
        real_exec_args(args.drop_last()).push(args.last())
    }
}

/// What a compiled test binary is run with: for a test build, the exec
/// arguments that are not placeholders, the test filter and the test
/// binary arguments; nothing otherwise.
pub open spec fn run_args(c: Command) -> Seq<Seq<char>> {
    if c.args.deep_view().contains("--test"@) {
        real_exec_args(match opt_strings_view(c.exec_args) {
            Some(a) => a,
            None => Seq::empty(),
        }) + match opt_view(c.test_filter) {
            Some(f) => seq![f],
            None => Seq::empty(),
        } + match opt_strings_view(c.test_binary_args) {
            Some(a) => a,
            None => Seq::empty(),
        }
    } else {
        Seq::empty()
    }
}

/// One process: the program and its arguments (the command's working
/// directory and variables apply to every process it starts).
pub struct Launch {
    pub program: String,
    pub args: Vec<String>,
}

/// The processes a command starts: the first one, and, for a rustc build
/// with an output, the one that runs the output once the build succeeds.
pub struct LaunchPlan {
    pub first: Launch,
    pub after: Option<Launch>,
}

/// A process as values.
pub type LaunchView = (Seq<char>, Seq<Seq<char>>);

/// The process that compiles: `rustc` with the arguments, or, behind a
/// compiler prefix, the prefix's program with the rest of the prefix, `rustc`
/// and the arguments.
pub open spec fn compile_launch(c: Command) -> LaunchView {
    match opt_strings_view(c.compiler_prefix) {
        Some(p) => if p.len() > 0 {
            (p[0], p.subrange(1, p.len() as int) + seq!["rustc"@] + c.args.deep_view())
        } else {
            ("rustc"@, c.args.deep_view())
        },
        None => ("rustc"@, c.args.deep_view()),
    }
}

/// The processes a command starts. A rustc build with an `-o` output also
/// runs the output: directly with `run_args`, or through `sh -c` with every
/// value quoted and the pipe appended as written.
pub open spec fn launch_plan_spec(c: Command) -> (LaunchView, Option<LaunchView>) {
    match c.strategy {
        CommandStrategy::Rustc => {
            let args = c.args.deep_view();
            let o = first_output_flag(args);
            if o < 0 {
                (compile_launch(c), None)
            } else {
                let exec = exec_path(args[o + 1]);
                let next = match opt_view(c.pipe_command) {
                    Some(p) => ("sh"@, seq!["-c"@, exec + quoted_args(run_args(c)) + " | "@ + p]),
                    None => (exec, run_args(c)),
                };
                (compile_launch(c), Some(next))
            }
        },
        CommandStrategy::Shell => ((c.program@, c.args.deep_view()), None),
        CommandStrategy::CargoScript | CommandStrategy::Cargo => (("cargo"@, c.args.deep_view()), None),
        CommandStrategy::Bazel => (("bazel"@, c.args.deep_view()), None),
    }
}

impl View for Launch {
    type V = LaunchView;

    open spec fn view(&self) -> LaunchView {
        (self.program@, self.args.deep_view())
    }
}

impl View for LaunchPlan {
    type V = (LaunchView, Option<LaunchView>);

    open spec fn view(&self) -> (LaunchView, Option<LaunchView>) {
        (
            self.first@,
            match self.after {
                Some(l) => Some(l@),
                None => None,
            },
        )
    }
}

fn own(s: &str) -> (r: String)
    ensures
        r@ == s@,
{
    String::from_str(s)
}

/// The exec arguments that are not placeholders.
fn real_exec(args: &Vec<String>) -> (r: Vec<String>)
    ensures
        r.deep_view() == real_exec_args(args.deep_view()),
{
    let mut out: Vec<String> = Vec::new();
    let mut i: usize = 0;
    assert(args.deep_view().subrange(0, 0) =~= Seq::<Seq<char>>::empty());
    assert(out.deep_view() =~= Seq::<Seq<char>>::empty());
    while i < args.len()
        invariant
            i <= args.len(),
            out.deep_view() == real_exec_args(args.deep_view().subrange(0, i as int)),
        decreases args.len() - i,
    {
        let ghost sub = args.deep_view().subrange(0, i + 1);
        assert(sub.drop_last() =~= args.deep_view().subrange(0, i as int));
        let a = args[i].as_str();
        if !(str_eq(a, "{bench_name}") || str_eq(a, "{test_name}")) {
            crate::types::push_string(&mut out, own(a));
        }
        i = i + 1;
    }
    assert(args.deep_view().subrange(0, args.len() as int) =~= args.deep_view());
    out
}

impl Command {
    /// What the compiled test binary is run with.
    pub fn run_arguments(&self) -> (r: Vec<String>)
        ensures
            r.deep_view() == run_args(*self),
    {
        let mut out: Vec<String> = Vec::new();
        assert(out.deep_view() =~= Seq::<Seq<char>>::empty());
        if args_contain(&self.args, "--test") {
            match &self.exec_args {
                Some(e) => {
                    out = real_exec(e);
                },
                None => {},
            }
            let ghost a0 = out.deep_view();
            match &self.test_filter {
                Some(f) => crate::types::push_string(&mut out, f.clone()),
                None => {},
            }
            let ghost a1 = out.deep_view();
            match &self.test_binary_args {
                Some(b) => crate::types::extend_strings(&mut out, b),
                None => {},
            }
            assert(out.deep_view() =~= run_args(*self));
        }
        out
    }

    /// The process that compiles.
    fn compile_step(&self) -> (r: Launch)
        ensures
            r@ == compile_launch(*self),
    {
        match &self.compiler_prefix {
            Some(p) => {
                if p.len() > 0 {
                    let mut rest: Vec<String> = Vec::new();
                    assert(rest.deep_view() =~= Seq::<Seq<char>>::empty());
                    let mut i: usize = 1;
                    while i < p.len()
                        invariant
                            1 <= i <= p.len(),
                            rest.deep_view() == p.deep_view().subrange(1, i as int),
                        decreases p.len() - i,
                    {
                        crate::types::push_string(&mut rest, p[i].clone());
                        assert(rest.deep_view() =~= p.deep_view().subrange(1, i + 1));
                        i = i + 1;
                    }
                    crate::types::push_string(&mut rest, own("rustc"));
                    crate::types::extend_strings(&mut rest, &self.args);
                    Launch { program: p[0].clone(), args: rest }
                } else {
                    Launch { program: own("rustc"), args: crate::types::clone_strings(&self.args) }
                }
            },
            None => Launch { program: own("rustc"), args: crate::types::clone_strings(&self.args) },
        }
    }

    /// The process that runs the output of a build whose output name
    /// follows `-o` at position `o`.
    fn run_step(&self, o: usize) -> (r: Launch)
        requires
            output_flag_at(self.args.deep_view(), o as int),
        ensures
            r@ == match opt_view(self.pipe_command) {
                Some(p) => ("sh"@, seq!["-c"@, exec_path(self.args.deep_view()[o + 1]) + quoted_args(run_args(*self)) + " | "@ + p]),
                None => (exec_path(self.args.deep_view()[o + 1]), run_args(*self)),
            },
    {
        let n = self.args.len();
        assert(self.args.deep_view().len() == self.args@.len());
        let exec = render_exec_path(self.args[o + 1].as_str());
        assert(self.args.deep_view()[o + 1] == self.args@[o + 1]@);
        let ra = self.run_arguments();
        match &self.pipe_command {
            Some(pipe) => {
                let line = render_quoted(exec.as_str(), &ra);
                let mut full = line;
                full.append(" | ");
                full.append(pipe.as_str());
                let mut a: Vec<String> = Vec::new();
                crate::types::push_string(&mut a, own("-c"));
                crate::types::push_string(&mut a, full);
                assert(a.deep_view() =~= seq!["-c"@, full@]);
                Launch { program: own("sh"), args: a }
            },
            None => Launch { program: exec, args: ra },
        }
    }

    /// The processes running the command starts, in order.
    pub fn launch_plan(&self) -> (r: LaunchPlan)
        ensures
            r@ == launch_plan_spec(*self),
    {
        match self.strategy {
            CommandStrategy::Rustc => {
                let first = self.compile_step();
                match find_output_flag(&self.args) {
                    None => LaunchPlan { first, after: None },
                    Some(o) => {
                        let next = self.run_step(o);
                        LaunchPlan { first, after: Some(next) }
                    },
                }
            },
            CommandStrategy::Shell => LaunchPlan {
                first: Launch { program: self.program.clone(), args: crate::types::clone_strings(&self.args) },
                after: None,
            },
            CommandStrategy::CargoScript | CommandStrategy::Cargo => LaunchPlan {
                first: Launch { program: own("cargo"), args: crate::types::clone_strings(&self.args) },
                after: None,
            },
            CommandStrategy::Bazel => LaunchPlan {
                first: Launch { program: own("bazel"), args: crate::types::clone_strings(&self.args) },
                after: None,
            },
        }
    }
}

} // verus!
