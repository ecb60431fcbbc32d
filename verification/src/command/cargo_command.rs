//! A command line built for cargo, rustc, bazel or another tool, and its
//! rendering as one shell line.
use vstd::prelude::*;

use crate::strings::{contains_char, has_char, str_eq};
use crate::types::{extend_strings, opt_view};

verus! {

/// Which tool a command runs.
#[derive(Debug, Clone, Copy, PartialEq, Eq, Structural)]
pub enum CommandType {
    Cargo,
    Rustc,
    /// A tool named by the first argument (dx, trunk, sh, ...).
    Shell,
    /// A cargo script run.
    RustSFScript,
    Bazel,
}

/// A command: the tool, its arguments, and where and with what environment it runs.
#[derive(Debug)]
pub struct CargoCommand {
    pub command_type: CommandType,
    pub args: Vec<String>,
    pub working_dir: Option<String>,
    pub env: Vec<(String, String)>,
    /// For rustc test commands, the test name to filter.
    pub test_filter: Option<String>,
}

/// The text of a command.
pub struct CargoCommandView {
    pub command_type: CommandType,
    pub args: Seq<Seq<char>>,
    pub working_dir: Option<Seq<char>>,
    pub env: Seq<(Seq<char>, Seq<char>)>,
    pub test_filter: Option<Seq<char>>,
}

impl View for CargoCommand {
    type V = CargoCommandView;

    open spec fn view(&self) -> CargoCommandView {
        CargoCommandView {
            command_type: self.command_type,
            args: self.args.deep_view(),
            working_dir: opt_view(self.working_dir),
            env: self.env.deep_view(),
            test_filter: opt_view(self.test_filter),
        }
    }
}

/// A fresh command of type `t` with arguments `args` and nothing else set.
pub open spec fn plain_command(t: CommandType, args: Seq<Seq<char>>) -> CargoCommandView {
    CargoCommandView {
        command_type: t,
        args,
        working_dir: None,
        env: Seq::empty(),
        test_filter: None,
    }
}

/// An argument as shown in a command line: wrapped in single quotes when it holds a space.
pub open spec fn quote_if_spaced(a: Seq<char>) -> Seq<char> {
    if has_char(a, ' ') {
        "'"@ + a + "'"@
    } else {
        a
    }
}

/// Each argument preceded by a space.
pub open spec fn spaced_args(args: Seq<Seq<char>>) -> Seq<char>
    decreases args.len(),
{
    if args.len() == 0 {
        Seq::empty()
    } else {
        spaced_args(args.drop_last()) + " "@ + quote_if_spaced(args.last())
    }
}

/// The arguments separated by single spaces.
pub open spec fn joined_args(args: Seq<Seq<char>>) -> Seq<char>
    decreases args.len(),
{
    if args.len() == 0 {
        Seq::empty()
    } else if args.len() == 1 {
        quote_if_spaced(args[0])
    } else {
        joined_args(args.drop_last()) + " "@ + quote_if_spaced(args.last())
    }
}

/// Position `i` holds `-o` followed by an output name.
pub open spec fn output_flag_at(args: Seq<Seq<char>>, i: int) -> bool {
    0 <= i && i + 1 < args.len() && args[i] == "-o"@
}

/// The first position holding `-o` followed by an output name, or -1.
pub open spec fn first_output_flag(args: Seq<Seq<char>>) -> int {
    if exists|i: int| output_flag_at(args, i) {
        choose|i: int| output_flag_at(args, i) && forall|j: int| 0 <= j < i ==> !output_flag_at(args, j)
    } else {
        -1
    }
}

/// The line a rustc command is shown as: the compile, then running the output.
pub open spec fn rustc_line(args: Seq<Seq<char>>, filter: Option<Seq<char>>) -> Seq<char> {
    let compile = "rustc"@ + spaced_args(args);
    let o = first_output_flag(args);
    if o < 0 {
        compile
    } else {
        let run = compile + " && ./"@ + args[o + 1];
        if args.contains("--test"@) && filter.is_some() {
            run + " "@ + filter.unwrap()
        } else {
            run
        }
    }
}

/// The shell line of a command.
pub open spec fn shell_line(c: CargoCommandView) -> Seq<char> {
    match c.command_type {
        CommandType::Rustc => rustc_line(c.args, c.test_filter),
        CommandType::Shell => joined_args(c.args),
        CommandType::Cargo | CommandType::RustSFScript => "cargo"@ + spaced_args(c.args),
        CommandType::Bazel => "bazel"@ + spaced_args(c.args),
    }
}

/// A copy of a list of environment pairs.
pub fn clone_pairs(v: &Vec<(String, String)>) -> (r: Vec<(String, String)>)
    ensures
        r.deep_view() == v.deep_view(),
{
    let mut r: Vec<(String, String)> = Vec::new();
    let mut i: usize = 0;
    while i < v.len()
        invariant
            i <= v.len(),
            r@.len() == i,
            r.deep_view() == v.deep_view().subrange(0, i as int),
        decreases v.len() - i,
    {
        let p = (v[i].0.clone(), v[i].1.clone());
        let ghost old_r = r@;
        let ghost old_dv = r.deep_view();
        r.push(p);
        proof {
            assert forall|j: int| 0 <= j < i + 1 implies r.deep_view()[j] == v.deep_view()[j] by {
                if j < i {
                    assert(r@[j] == old_r[j]);
                    assert(old_dv[j] == v.deep_view()[j]);
                } else {
                    assert(r@[j] == p);
                }
            }
            assert(r.deep_view() =~= v.deep_view().subrange(0, i + 1));
        }
        i = i + 1;
    }
    assert(v.deep_view().subrange(0, v.len() as int) =~= v.deep_view());
    r
}

/// Appends `a` to `cmd`, quoted when it holds a space.
fn push_quoted(cmd: &mut String, a: &str)
    ensures
        final(cmd)@ == old(cmd)@ + quote_if_spaced(a@),
{
    if contains_char(a, ' ') {
        cmd.append("'");
        cmd.append(a);
        cmd.append("'");
        proof {
            assert(final(cmd)@ =~= old(cmd)@ + quote_if_spaced(a@));
        }
    } else {
        cmd.append(a);
    }
}

/// `head` followed by every argument, each preceded by a space.
fn render_spaced(head: &str, args: &Vec<String>) -> (r: String)
    ensures
        r@ == head@ + spaced_args(args.deep_view()),
{
    let mut cmd = String::from_str(head);
    let mut i: usize = 0;
    while i < args.len()
        invariant
            i <= args.len(),
            cmd@ == head@ + spaced_args(args.deep_view().subrange(0, i as int)),
        decreases args.len() - i,
    {
        cmd.append(" ");
        push_quoted(&mut cmd, args[i].as_str());
        proof {
            let s = args.deep_view().subrange(0, i + 1);
            assert(s.drop_last() =~= args.deep_view().subrange(0, i as int));
            assert(cmd@ =~= head@ + spaced_args(s));
        }
        i = i + 1;
    }
    assert(args.deep_view().subrange(0, args.len() as int) =~= args.deep_view());
    cmd
}

/// The arguments separated by single spaces.
fn render_joined(args: &Vec<String>) -> (r: String)
    ensures
        r@ == joined_args(args.deep_view()),
{
    let mut cmd = String::new();
    let mut i: usize = 0;
    while i < args.len()
        invariant
            i <= args.len(),
            cmd@ == joined_args(args.deep_view().subrange(0, i as int)),
        decreases args.len() - i,
    {
        if i > 0 {
            cmd.append(" ");
        }
        push_quoted(&mut cmd, args[i].as_str());
        proof {
            let s = args.deep_view().subrange(0, i + 1);
            assert(s.drop_last() =~= args.deep_view().subrange(0, i as int));
            if i == 0 {
                assert(cmd@ =~= joined_args(s));
            } else {
                assert(cmd@ =~= joined_args(s));
            }
        }
        i = i + 1;
    }
    assert(args.deep_view().subrange(0, args.len() as int) =~= args.deep_view());
    cmd
}

/// Whether some argument is exactly `a`.
pub fn args_contain(args: &Vec<String>, a: &str) -> (r: bool)
    ensures
        r == args.deep_view().contains(a@),
{
    let mut i: usize = 0;
    while i < args.len()
        invariant
            i <= args.len(),
            forall|j: int| 0 <= j < i ==> args.deep_view()[j] != a@,
        decreases args.len() - i,
    {
        if str_eq(args[i].as_str(), a) {
            assert(args.deep_view()[i as int] == a@);
            return true;
        }
        i = i + 1;
    }
    false
}

/// The first position holding `-o` followed by an output name.
pub fn find_output_flag(args: &Vec<String>) -> (r: Option<usize>)
    ensures
        match r {
            Some(i) => i as int == first_output_flag(args.deep_view()) && output_flag_at(
                args.deep_view(),
                i as int,
            ),
            None => first_output_flag(args.deep_view()) == -1,
        },
{
    let ghost a = args.deep_view();
    let mut i: usize = 0;
    while i < args.len()
        invariant
            i <= args.len(),
            a == args.deep_view(),
            forall|j: int| 0 <= j < i ==> !output_flag_at(a, j),
        decreases args.len() - i,
    {
        if str_eq(args[i].as_str(), "-o") && i + 1 < args.len() {
            proof {
                assert(output_flag_at(a, i as int));
                let c = first_output_flag(a);
                assert(output_flag_at(a, c) && forall|j: int| 0 <= j < c ==> !output_flag_at(a, j));
                if c < i {
                } else if c > i {
                }
            }
            return Some(i);
        }
        i = i + 1;
    }
    assert forall|j: int| !output_flag_at(a, j) by {
        if 0 <= j && j < a.len() {
        }
    }
    None
}

/// An empty list of environment pairs.
pub fn no_env() -> (r: Vec<(String, String)>)
    ensures
        r.deep_view() == Seq::<(Seq<char>, Seq<char>)>::empty(),
        r@.len() == 0,
{
    let r: Vec<(String, String)> = Vec::new();
    assert(r.deep_view() =~= Seq::<(Seq<char>, Seq<char>)>::empty());
    r
}

/// The rustc compile line followed by running its output.
fn render_rustc(args: &Vec<String>, filter: &Option<String>) -> (r: String)
    ensures
        r@ == rustc_line(args.deep_view(), opt_view(*filter)),
{
    let mut cmd = render_spaced("rustc", args);
    let ghost compile = cmd@;
    let o = find_output_flag(args);
    match o {
        Some(i) => {
            let n = args.len();
            assert(i + 1 < n);
            cmd.append(" && ./");
            cmd.append(args[i + 1].as_str());
            let ghost run = cmd@;
            assert(run == compile + " && ./"@ + args.deep_view()[i + 1]);
            if args_contain(args, "--test") {
                match filter {
                    Some(f) => {
                        cmd.append(" ");
                        cmd.append(f.as_str());
                    },
                    None => {},
                }
            }
        },
        None => {},
    }
    cmd
}

impl CargoCommand {
    pub fn new(args: Vec<String>) -> (r: Self)
        ensures
            r@ == plain_command(CommandType::Cargo, args.deep_view()),
    {
        CargoCommand {
            command_type: CommandType::Cargo,
            args,
            working_dir: None,
            env: no_env(),
            test_filter: None,
        }
    }

    pub fn new_rustc(args: Vec<String>) -> (r: Self)
        ensures
            r@ == plain_command(CommandType::Rustc, args.deep_view()),
    {
        CargoCommand {
            command_type: CommandType::Rustc,
            args,
            working_dir: None,
            env: no_env(),
            test_filter: None,
        }
    }

    /// A shell command: the tool name becomes the first argument.
    pub fn new_shell(command: String, args: Vec<String>) -> (r: Self)
        ensures
            r@ == plain_command(CommandType::Shell, seq![command@] + args.deep_view()),
    {
        let mut all_args: Vec<String> = Vec::new();
        all_args.push(command);
        assert(all_args.deep_view() =~= seq![command@]);
        extend_strings(&mut all_args, &args);
        CargoCommand {
            command_type: CommandType::Shell,
            args: all_args,
            working_dir: None,
            env: no_env(),
            test_filter: None,
        }
    }

    pub fn new_rust_sf_script(args: Vec<String>) -> (r: Self)
        ensures
            r@ == plain_command(CommandType::RustSFScript, args.deep_view()),
    {
        CargoCommand {
            command_type: CommandType::RustSFScript,
            args,
            working_dir: None,
            env: no_env(),
            test_filter: None,
        }
    }

    pub fn new_bazel(args: Vec<String>) -> (r: Self)
        ensures
            r@ == plain_command(CommandType::Bazel, args.deep_view()),
    {
        CargoCommand {
            command_type: CommandType::Bazel,
            args,
            working_dir: None,
            env: no_env(),
            test_filter: None,
        }
    }

    pub fn with_working_dir(self, dir: String) -> (r: Self)
        ensures
            r@ == (CargoCommandView { working_dir: Some(dir@), ..self@ }),
    {
        let mut s = self;
        s.working_dir = Some(dir);
        s
    }

    pub fn with_env(self, key: String, value: String) -> (r: Self)
        ensures
            r@ == (CargoCommandView { env: self@.env.push((key@, value@)), ..self@ }),
    {
        let mut s = self;
        let ghost old_env = s.env@;
        let ghost old_dv = s.env.deep_view();
        s.env.push((key, value));
        proof {
            assert forall|j: int| 0 <= j < s.env@.len() implies s.env.deep_view()[j] == old_dv.push(
                (key@, value@),
            )[j] by {
                if j < old_env.len() {
                    assert(s.env@[j] == old_env[j]);
                }
            }
            assert(s.env.deep_view() =~= old_dv.push((key@, value@)));
        }
        s
    }

    pub fn with_test_filter(self, filter: String) -> (r: Self)
        ensures
            r@ == (CargoCommandView { test_filter: Some(filter@), ..self@ }),
    {
        let mut s = self;
        s.test_filter = Some(filter);
        s
    }

    /// The command as one shell line.
    pub fn to_shell_command(&self) -> (r: String)
        ensures
            r@ == shell_line(self@),
    {
        match self.command_type {
            CommandType::Rustc => render_rustc(&self.args, &self.test_filter),
            CommandType::Shell => render_joined(&self.args),
            CommandType::RustSFScript | CommandType::Cargo => render_spaced("cargo", &self.args),
            CommandType::Bazel => render_spaced("bazel", &self.args),
        }
    }
}

/// The processes running a command starts: for rustc, the compile, and the
/// run of `./<output>` when an `-o` output is named (with the test filter as
/// its argument for a test build); for a shell command, the program its
/// first argument names, with the rest (`None` when there is no argument);
/// otherwise cargo or bazel with the arguments.
pub open spec fn cargo_launch_spec(c: CargoCommandView) -> Option<(crate::command::command::LaunchView, Option<crate::command::command::LaunchView>)> {
    match c.command_type {
        CommandType::Rustc => {
            let o = first_output_flag(c.args);
            if o < 0 {
                Some((("rustc"@, c.args), None))
            } else {
                let run_args = if c.args.contains("--test"@) && c.test_filter is Some {
                    seq![c.test_filter->0]
                } else {
                    Seq::empty()
                };
                Some((("rustc"@, c.args), Some(("./"@ + c.args[o + 1], run_args))))
            }
        },
        CommandType::Shell => if c.args.len() == 0 {
            None
        } else {
            Some(((c.args[0], c.args.subrange(1, c.args.len() as int)), None))
        },
        CommandType::Bazel => Some((("bazel"@, c.args), None)),
        _ => Some((("cargo"@, c.args), None)),
    }
}

fn own_str(s: &str) -> (r: String)
    ensures
        r@ == s@,
{
    String::from_str(s)
}

#[verifier::spinoff_prover]
#[verifier::rlimit(40)]
fn rustc_plan(c: &CargoCommand) -> (r: crate::command::command::LaunchPlan)
    requires
        c.command_type == CommandType::Rustc,
    ensures
        cargo_launch_spec(c@) == Some(r@),
{
    let n = c.args.len();
    assert(c.args.deep_view().len() == c.args@.len());
    let first = crate::command::command::Launch { program: own_str("rustc"), args: crate::types::clone_strings(&c.args) };
    match find_output_flag(&c.args) {
        None => crate::command::command::LaunchPlan { first, after: None },
        Some(o) => {
            let mut prog = own_str("./");
            prog.append(c.args[o + 1].as_str());
            assert(c.args.deep_view()[o + 1] == c.args@[o + 1]@);
            let mut run: Vec<String> = Vec::new();
            assert(run.deep_view() =~= Seq::<Seq<char>>::empty());
            if args_contain(&c.args, "--test") {
                match &c.test_filter {
                    Some(f) => {
                        crate::types::push_string(&mut run, f.clone());
                        assert(run.deep_view() =~= seq![f@]);
                    },
                    None => {},
                }
            }
            let next = crate::command::command::Launch { program: prog, args: run };
            assert(next@.1 == (if c@.args.contains("--test"@) && c@.test_filter is Some {
                seq![c@.test_filter->0]
            } else {
                Seq::<Seq<char>>::empty()
            }));
            assert(next@.0 == "./"@ + c@.args[o + 1]);
            crate::command::command::LaunchPlan { first, after: Some(next) }
        },
    }
}

fn shell_plan(c: &CargoCommand) -> (r: Option<crate::command::command::LaunchPlan>)
    requires
        c.command_type == CommandType::Shell,
    ensures
        match r {
            Some(p) => cargo_launch_spec(c@) == Some(p@),
            None => cargo_launch_spec(c@) is None,
        },
{
    let n = c.args.len();
    assert(c.args.deep_view().len() == c.args@.len());
    if n == 0 {
        return None;
    }
    let mut rest: Vec<String> = Vec::new();
    assert(rest.deep_view() =~= Seq::<Seq<char>>::empty());
    let mut i: usize = 1;
    while i < n
        invariant
            1 <= i <= n,
            n == c.args@.len(),
            rest.deep_view() == c.args.deep_view().subrange(1, i as int),
        decreases n - i,
    {
        crate::types::push_string(&mut rest, c.args[i].clone());
        assert(rest.deep_view() =~= c.args.deep_view().subrange(1, i + 1));
        i = i + 1;
    }
    assert(c.args.deep_view()[0] == c.args@[0]@);
    let first = crate::command::command::Launch { program: c.args[0].clone(), args: rest };
    Some(crate::command::command::LaunchPlan { first, after: None })
}

impl CargoCommand {
    /// The processes running the command starts, in order; `None` for a
    /// shell command with no program.
    pub fn launch_plan(&self) -> (r: Option<crate::command::command::LaunchPlan>)
        ensures
            match r {
                Some(p) => cargo_launch_spec(self@) == Some(p@),
                None => cargo_launch_spec(self@) is None,
            },
    {
        match self.command_type {
            CommandType::Rustc => Some(rustc_plan(self)),
            CommandType::Shell => shell_plan(self),
            CommandType::Bazel => Some(crate::command::command::LaunchPlan {
                first: crate::command::command::Launch { program: own_str("bazel"), args: crate::types::clone_strings(&self.args) },
                after: None,
            }),
            _ => Some(crate::command::command::LaunchPlan {
                first: crate::command::command::Launch { program: own_str("cargo"), args: crate::types::clone_strings(&self.args) },
                after: None,
            }),
        }
    }
}

} // verus!
