//! Framework strategies: each turns the context of a runnable into the
//! command line of one tool (cargo test, cargo nextest, bazel, rustc, ...).
use vstd::prelude::*;
use crate::bazel::{BazelTarget, BazelTargetKind};
use crate::command::cargo_command::{CargoCommand, CargoCommandView, CommandType, plain_command};
use crate::paths::{file_stem, file_stem_spec};
use crate::strings::{
    is_prefix, is_suffix, seq_contains, qualified, occurs_from, first_occurrence_from, occurs_at,
    contains, ends_with, starts_with, find_from, slice_from, concat2, concat3, qualify,
};
use crate::types::{RunnableKind, opt_view, clone_opt, clone_strings, extend_strings, push_string};

verus! {

/// The kind of command a runnable calls for.
#[derive(Debug, Clone, Copy, PartialEq, Eq, Structural)]
pub enum FrameworkKind {
    Test,
    Binary,
    Benchmark,
    DocTest,
    Build,
}

impl FrameworkKind {
    /// The kind of command each kind of runnable calls for.
    pub open spec fn of_runnable(kind: RunnableKind) -> FrameworkKind {
        match kind {
            RunnableKind::Test { .. } => FrameworkKind::Test,
            RunnableKind::ModuleTests { .. } => FrameworkKind::Test,
            RunnableKind::Binary { .. } => FrameworkKind::Binary,
            RunnableKind::Benchmark { .. } => FrameworkKind::Benchmark,
            RunnableKind::DocTest { .. } => FrameworkKind::DocTest,
            RunnableKind::Standalone { has_tests } => if has_tests {
                FrameworkKind::Test
            } else {
                FrameworkKind::Binary
            },
            RunnableKind::SingleFileScript { .. } => FrameworkKind::Binary,
        }
    }

    /// The framework kind for a runnable kind.
    pub fn from_runnable_kind(kind: &RunnableKind) -> (r: FrameworkKind)
        ensures
            r == FrameworkKind::of_runnable(*kind),
    {
        match kind {
            RunnableKind::Test { .. } => FrameworkKind::Test,
            RunnableKind::ModuleTests { .. } => FrameworkKind::Test,
            RunnableKind::Binary { .. } => FrameworkKind::Binary,
            RunnableKind::Benchmark { .. } => FrameworkKind::Benchmark,
            RunnableKind::DocTest { .. } => FrameworkKind::DocTest,
            RunnableKind::Standalone { has_tests } => if *has_tests {
                FrameworkKind::Test
            } else {
                FrameworkKind::Binary
            },
            RunnableKind::SingleFileScript { .. } => FrameworkKind::Binary,
        }
    }
}

/// What a strategy knows when it builds a command. `temp_dir` is where
/// compiled single files are put; `build_targets` are the rules of the BUILD
/// file that governs `file_path` (`None` when no BUILD file was found).
#[derive(Debug)]
pub struct CommandContext {
    pub file_path: Option<String>,
    pub crate_name: Option<String>,
    pub package_name: Option<String>,
    pub mod_path: Option<String>,
    pub function_name: Option<String>,
    pub runnable_kind: RunnableKind,
    pub working_dir: Option<String>,
    pub temp_dir: Option<String>,
    pub build_targets: Option<Vec<BazelTarget>>,
}

/// A strategy builds the command for one framework.
pub trait FrameworkStrategy {
    /// The command (or the error) the strategy gives for a context.
    spec fn command_spec(&self, context: CommandContext) -> Result<CargoCommandView, Seq<char>>;

    /// The strategy's name.
    spec fn name_spec(&self) -> Seq<char>;

    /// The framework kind the strategy serves.
    spec fn kind_spec(&self) -> FrameworkKind;

    /// Build a command for the given context.
    fn build_command(&self, context: &CommandContext) -> (r: Result<CargoCommand, String>)
        ensures
            match r {
                Ok(c) => self.command_spec(*context) == Ok::<CargoCommandView, Seq<char>>(c@),
                Err(e) => self.command_spec(*context) == Err::<CargoCommandView, Seq<char>>(e@),
            };

    /// Get the name of this strategy.
    fn name(&self) -> (r: &str)
        ensures
            r@ == self.name_spec();

    /// Get the framework kind this strategy handles.
    fn framework_kind(&self) -> (r: FrameworkKind)
        ensures
            r == self.kind_spec();
}

// ---------------------------------------------------------------------------
// Shared pieces of the cargo command lines.

/// The file lies in a `benches` directory.
pub open spec fn is_bench_path(f: Seq<char>) -> bool {
    seq_contains(f, "/benches/"@) || seq_contains(f, "\\benches\\"@)
}

/// The file lies in an `examples` directory.
pub open spec fn is_example_path(f: Seq<char>) -> bool {
    seq_contains(f, "/examples/"@) || seq_contains(f, "\\examples\\"@)
}

/// `+<channel>` when a toolchain channel is chosen.
pub open spec fn channel_args(channel: Option<Seq<char>>) -> Seq<Seq<char>> {
    match channel {
        Some(c) => seq!["+"@ + c],
        None => Seq::empty(),
    }
}

/// `--package <name>` when the package is known.
pub open spec fn package_args(package: Option<Seq<char>>) -> Seq<Seq<char>> {
    match package {
        Some(p) => seq!["--package"@, p],
        None => Seq::empty(),
    }
}

/// `--<flag> <stem of the file>`, when the file has a stem.
pub open spec fn stem_args(flag: Seq<char>, f: Seq<char>) -> Seq<Seq<char>> {
    match file_stem_spec(f) {
        Some(s) => seq![flag, s],
        None => Seq::empty(),
    }
}

/// The cargo target flags a file calls for: `--bench` for a file under
/// `benches`, `--example` under `examples`, `--bin <package>` for
/// `src/main.rs` and `--lib` for `src/lib.rs`.
pub open spec fn target_flags(file: Option<Seq<char>>, package: Option<Seq<char>>) -> Seq<Seq<char>> {
    match file {
        None => Seq::empty(),
        Some(f) => if is_bench_path(f) {
            stem_args("--bench"@, f)
        } else if is_example_path(f) {
            stem_args("--example"@, f)
        } else if is_suffix("src/main.rs"@, f) {
            match package {
                Some(p) => seq!["--bin"@, p],
                None => Seq::empty(),
            }
        } else if is_suffix("src/lib.rs"@, f) {
            seq!["--lib"@]
        } else {
            Seq::empty()
        },
    }
}

/// For a module path `benches::<file>::<rest>`, the `<rest>`.
pub open spec fn bench_short_module(m: Seq<char>) -> Option<Seq<char>> {
    if is_prefix("benches::"@, m) && occurs_from(m, "::"@, 9) {
        let j = choose|j: int| first_occurrence_from(m, "::"@, 9, j);
        Some(m.subrange(j + 2, m.len() as int))
    } else {
        None
    }
}

/// `module::name`, or `name` when the module is missing or empty.
pub open spec fn module_test_path(module: Option<Seq<char>>, name: Seq<char>) -> Seq<char> {
    match module {
        Some(m) => if m.len() > 0 {
            qualified(m, name)
        } else {
            name
        },
        None => name,
    }
}

/// The filter that selects one test: its module path and name, with the
/// `benches::<file>` part left out for a test inside a benchmark file.
pub open spec fn test_path(file: Option<Seq<char>>, module: Option<Seq<char>>, name: Seq<char>) -> Seq<char> {
    if file matches Some(f) && is_bench_path(f) {
        match module {
            Some(m) => match bench_short_module(m) {
                Some(s) => if s.len() > 0 {
                    qualified(s, name)
                } else {
                    name
                },
                None => name,
            },
            None => name,
        }
    } else {
        module_test_path(module, name)
    }
}

/// The filter that selects the tests of a module, shortened inside a benchmark file.
pub open spec fn module_filter(file: Option<Seq<char>>, module: Seq<char>) -> Seq<char> {
    if file matches Some(f) && is_bench_path(f) {
        match bench_short_module(module) {
            Some(s) => s,
            None => module,
        }
    } else {
        module
    }
}

/// The filter of a doc test: `Type::method`, or the item's name.
pub open spec fn doc_filter(item: Seq<char>, method: Option<Seq<char>>) -> Seq<char> {
    match method {
        Some(m) => qualified(item, m),
        None => item,
    }
}

/// The command with its working directory set, when one is given.
pub open spec fn in_dir(c: CargoCommandView, dir: Option<Seq<char>>) -> CargoCommandView {
    match dir {
        Some(d) => CargoCommandView { working_dir: Some(d), ..c },
        None => c,
    }
}

/// A first occurrence from a position is unique.
pub proof fn lemma_first_occurrence_unique(s: Seq<char>, p: Seq<char>, from: int, i: int, j: int)
    requires
        first_occurrence_from(s, p, from, i),
        first_occurrence_from(s, p, from, j),
    ensures
        i == j,
{
}

/// A string with the characters of a literal.
fn text(s: &str) -> (r: String)
    ensures
        r@ == s@,
{
    String::from_str(s)
}

/// Sets the working directory when one is given.
fn finish(c: CargoCommand, dir: &Option<String>) -> (r: CargoCommand)
    ensures
        r@ == in_dir(c@, opt_view(*dir)),
{
    match dir {
        Some(d) => c.with_working_dir(d.clone()),
        None => c,
    }
}

/// Whether a file lies in a `benches` directory.
fn in_benches(f: &str) -> (r: bool)
    ensures
        r == is_bench_path(f@),
{
    contains(f, "/benches/") || contains(f, "\\benches\\")
}

/// Whether a file lies in an `examples` directory.
fn in_examples(f: &str) -> (r: bool)
    ensures
        r == is_example_path(f@),
{
    contains(f, "/examples/") || contains(f, "\\examples\\")
}

fn push_channel(args: &mut Vec<String>, channel: &Option<String>)
    ensures
        final(args).deep_view() == old(args).deep_view() + channel_args(opt_view(*channel)),
{
    match channel {
        Some(c) => push_string(args, concat2("+", c.as_str())),
        None => {
            assert(args.deep_view() + Seq::<Seq<char>>::empty() =~= args.deep_view());
        },
    }
}

fn push_package(args: &mut Vec<String>, package: &Option<String>)
    ensures
        final(args).deep_view() == old(args).deep_view() + package_args(opt_view(*package)),
{
    let ghost start = args.deep_view();
    match package {
        Some(p) => {
            push_string(args, text("--package"));
            push_string(args, p.clone());
            assert(args.deep_view() =~= start + package_args(opt_view(*package)));
        },
        None => {
            assert(args.deep_view() + Seq::<Seq<char>>::empty() =~= args.deep_view());
        },
    }
}

fn push_stem(args: &mut Vec<String>, flag: &str, f: &str)
    ensures
        final(args).deep_view() == old(args).deep_view() + stem_args(flag@, f@),
{
    let ghost start = args.deep_view();
    match file_stem(f) {
        Some(s) => {
            push_string(args, text(flag));
            push_string(args, s);
            assert(args.deep_view() =~= start + stem_args(flag@, f@));
        },
        None => {
            assert(args.deep_view() =~= start + stem_args(flag@, f@));
        },
    }
}

fn push_target_flags(args: &mut Vec<String>, file: &Option<String>, package: &Option<String>)
    ensures
        final(args).deep_view() == old(args).deep_view() + target_flags(opt_view(*file), opt_view(*package)),
{
    let ghost start = args.deep_view();
    match file {
        None => {
            assert(args.deep_view() =~= start + target_flags(opt_view(*file), opt_view(*package)));
        },
        Some(f) => {
            if in_benches(f.as_str()) {
                push_stem(args, "--bench", f.as_str());
            } else if in_examples(f.as_str()) {
                push_stem(args, "--example", f.as_str());
            } else if ends_with(f.as_str(), "src/main.rs") {
                match package {
                    Some(p) => {
                        push_string(args, text("--bin"));
                        push_string(args, p.clone());
                        assert(args.deep_view() =~= start + target_flags(opt_view(*file), opt_view(*package)));
                    },
                    None => {
                        assert(args.deep_view() =~= start + target_flags(opt_view(*file), opt_view(*package)));
                    },
                }
            } else if ends_with(f.as_str(), "src/lib.rs") {
                push_string(args, text("--lib"));
                assert(args.deep_view() =~= start + target_flags(opt_view(*file), opt_view(*package)));
            } else {
                assert(args.deep_view() =~= start + target_flags(opt_view(*file), opt_view(*package)));
            }
        },
    }
}

/// The `<rest>` of a module path `benches::<file>::<rest>`.
fn short_bench_module(m: &str) -> (r: Option<String>)
    ensures
        opt_view(r) == bench_short_module(m@),
{
    let n = m.unicode_len();
    if starts_with(m, "benches::") {
        match find_from(m, "::", 9) {
            Some(j) => {
                proof {
                    reveal_strlit("::");
                    assert(occurs_at(m@, "::"@, j as int));
                    let k = choose|k: int| first_occurrence_from(m@, "::"@, 9, k);
                    lemma_first_occurrence_unique(m@, "::"@, 9, j as int, k);
                    assert(j + 2 <= m@.len());
                }
                Some(slice_from(m, j + 2))
            },
            None => None,
        }
    } else {
        None
    }
}

fn test_path_of(file: &Option<String>, module: &Option<String>, name: &str) -> (r: String)
    ensures
        r@ == test_path(opt_view(*file), opt_view(*module), name@),
{
    let bench = match file {
        Some(f) => in_benches(f.as_str()),
        None => false,
    };
    if bench {
        match module {
            Some(m) => match short_bench_module(m.as_str()) {
                Some(s) => if s.unicode_len() > 0 {
                    qualify(s.as_str(), name)
                } else {
                    text(name)
                },
                None => text(name),
            },
            None => text(name),
        }
    } else {
        match module {
            Some(m) => if m.unicode_len() > 0 {
                qualify(m.as_str(), name)
            } else {
                text(name)
            },
            None => text(name),
        }
    }
}

fn module_filter_of(file: &Option<String>, module: &str) -> (r: String)
    ensures
        r@ == module_filter(opt_view(*file), module@),
{
    let bench = match file {
        Some(f) => in_benches(f.as_str()),
        None => false,
    };
    if bench {
        match short_bench_module(module) {
            Some(s) => s,
            None => text(module),
        }
    } else {
        text(module)
    }
}

fn doc_filter_of(item: &str, method: &Option<String>) -> (r: String)
    ensures
        r@ == doc_filter(item@, opt_view(*method)),
{
    match method {
        Some(m) => qualify(item, m.as_str()),
        None => text(item),
    }
}

// ---------------------------------------------------------------------------
// Cargo strategies.

/// The parts shared by the cargo strategies.
#[derive(Debug)]
pub struct CargoStrategy {
    pub name: String,
    pub command: String,
    pub subcommand: String,
    pub channel: Option<String>,
    pub default_args: Vec<String>,
}

impl CargoStrategy {
    /// A cargo strategy with the given name and subcommand.
    pub fn new(name: &str, subcommand: &str) -> (r: Self)
        ensures
            r.name@ == name@,
            r.command@ == "cargo"@,
            r.subcommand@ == subcommand@,
            r.channel is None,
            r.default_args.deep_view() == Seq::<Seq<char>>::empty(),
    {
        let r = CargoStrategy {
            name: text(name),
            command: text("cargo"),
            subcommand: text(subcommand),
            channel: None,
            default_args: Vec::new(),
        };
        assert(r.default_args.deep_view() =~= Seq::<Seq<char>>::empty());
        r
    }

    /// Builder method for the toolchain channel.
    pub fn with_channel(self, channel: &str) -> (r: Self)
        ensures
            r.name == self.name,
            r.command == self.command,
            r.subcommand == self.subcommand,
            opt_view(r.channel) == Some(channel@),
            r.default_args == self.default_args,
    {
        CargoStrategy { channel: Some(text(channel)), ..self }
    }

    /// Builder method for the default arguments.
    pub fn with_args(self, args: Vec<String>) -> (r: Self)
        ensures
            r.name == self.name,
            r.command == self.command,
            r.subcommand == self.subcommand,
            r.channel == self.channel,
            r.default_args == args,
    {
        CargoStrategy { default_args: args, ..self }
    }
}

/// The test filter arguments of `cargo test` for a runnable.
pub open spec fn cargo_test_tail(base: CargoStrategy, c: CommandContext) -> Seq<Seq<char>> {
    let file = opt_view(c.file_path);
    let module = opt_view(c.mod_path);
    let defaults = base.default_args.deep_view();
    match c.runnable_kind {
        RunnableKind::DocTest { struct_or_module_name, method_name } =>
            seq!["--doc"@] + defaults + seq!["--"@, doc_filter(struct_or_module_name@, opt_view(method_name))],
        RunnableKind::Test { test_name, .. } =>
            defaults + seq!["--"@, test_path(file, module, test_name@), "--exact"@],
        RunnableKind::ModuleTests { module_name } => defaults + if module_name@.len() > 0 {
            seq!["--"@, module_filter(file, module_name@)]
        } else {
            Seq::empty()
        },
        _ => defaults + match c.function_name {
            Some(t) => seq![
                "--"@,
                match module {
                    Some(m) => qualified(m, t@),
                    None => t@,
                },
                "--exact"@
            ],
            None => Seq::empty(),
        },
    }
}

/// The arguments of `cargo test`.
pub open spec fn cargo_test_args(base: CargoStrategy, c: CommandContext) -> Seq<Seq<char>> {
    channel_args(opt_view(base.channel)) + seq![base.subcommand@] + package_args(opt_view(c.package_name))
        + target_flags(opt_view(c.file_path), opt_view(c.package_name)) + cargo_test_tail(base, c)
}

/// Cargo test strategy.
#[derive(Debug)]
pub struct CargoTestStrategy {
    pub base: CargoStrategy,
}

impl CargoTestStrategy {
    /// `cargo test`, named `cargo-test`.
    pub fn new() -> (r: Self)
        ensures
            r.base.name@ == "cargo-test"@,
            r.base.subcommand@ == "test"@,
            r.base.channel is None,
            r.base.default_args.deep_view() == Seq::<Seq<char>>::empty(),
    {
        CargoTestStrategy { base: CargoStrategy::new("cargo-test", "test") }
    }
}

fn push_cargo_test_tail(args: &mut Vec<String>, base: &CargoStrategy, c: &CommandContext)
    ensures
        final(args).deep_view() == old(args).deep_view() + cargo_test_tail(*base, *c),
{
    let ghost start = args.deep_view();
    match &c.runnable_kind {
        RunnableKind::DocTest { struct_or_module_name, method_name } => {
            push_string(args, text("--doc"));
            extend_strings(args, &base.default_args);
            push_string(args, text("--"));
            push_string(args, doc_filter_of(struct_or_module_name.as_str(), method_name));
            assert(args.deep_view() =~= start + cargo_test_tail(*base, *c));
        },
        RunnableKind::Test { test_name, .. } => {
            extend_strings(args, &base.default_args);
            push_string(args, text("--"));
            push_string(args, test_path_of(&c.file_path, &c.mod_path, test_name.as_str()));
            push_string(args, text("--exact"));
            assert(args.deep_view() =~= start + cargo_test_tail(*base, *c));
        },
        RunnableKind::ModuleTests { module_name } => {
            extend_strings(args, &base.default_args);
            if module_name.unicode_len() > 0 {
                push_string(args, text("--"));
                push_string(args, module_filter_of(&c.file_path, module_name.as_str()));
            }
            assert(args.deep_view() =~= start + cargo_test_tail(*base, *c));
        },
        _ => {
            extend_strings(args, &base.default_args);
            match &c.function_name {
                Some(t) => {
                    push_string(args, text("--"));
                    let filter = match &c.mod_path {
                        Some(m) => qualify(m.as_str(), t.as_str()),
                        None => t.clone(),
                    };
                    push_string(args, filter);
                    push_string(args, text("--exact"));
                },
                None => {},
            }
            assert(args.deep_view() =~= start + cargo_test_tail(*base, *c));
        },
    }
}

impl FrameworkStrategy for CargoTestStrategy {
    open spec fn command_spec(&self, c: CommandContext) -> Result<CargoCommandView, Seq<char>> {
        Ok(in_dir(plain_command(CommandType::Cargo, cargo_test_args(self.base, c)), opt_view(c.working_dir)))
    }

    open spec fn name_spec(&self) -> Seq<char> {
        self.base.name@
    }

    open spec fn kind_spec(&self) -> FrameworkKind {
        FrameworkKind::Test
    }

    fn build_command(&self, context: &CommandContext) -> (r: Result<CargoCommand, String>) {
        let mut args: Vec<String> = Vec::new();
        proof {
            assert(args.deep_view() =~= Seq::<Seq<char>>::empty());
        }
        push_channel(&mut args, &self.base.channel);
        push_string(&mut args, self.base.subcommand.clone());
        push_package(&mut args, &context.package_name);
        push_target_flags(&mut args, &context.file_path, &context.package_name);
        push_cargo_test_tail(&mut args, &self.base, context);
        proof {
            assert(args.deep_view() =~= cargo_test_args(self.base, *context));
        }
        Ok(finish(CargoCommand::new(args), &context.working_dir))
    }

    fn name(&self) -> (r: &str) {
        self.base.name.as_str()
    }

    fn framework_kind(&self) -> (r: FrameworkKind) {
        FrameworkKind::Test
    }
}


/// With `cargo test`, one test runs alone: the command ends with `--`, the
/// test's path and `--exact`. The tests of a named module end with `--`
/// and the module filter, so that only that module's tests run.
pub proof fn lemma_cargo_test_filter(st: CargoTestStrategy, c: CommandContext)
    ensures
        st.command_spec(c) is Ok,
        c.runnable_kind matches RunnableKind::Test { test_name, .. } ==> ({
            let a = st.command_spec(c)->Ok_0.args;
            &&& a.len() >= 3
            &&& a.subrange(a.len() - 3, a.len() as int) == seq![
                "--"@,
                test_path(opt_view(c.file_path), opt_view(c.mod_path), test_name@),
                "--exact"@
            ]
        }),
        c.runnable_kind matches RunnableKind::ModuleTests { module_name } ==> (module_name@.len() > 0 ==> ({
            let a = st.command_spec(c)->Ok_0.args;
            &&& a.len() >= 2
            &&& a.subrange(a.len() - 2, a.len() as int) == seq!["--"@, module_filter(opt_view(c.file_path), module_name@)]
        })),
{
    let a = st.command_spec(c)->Ok_0.args;
    let head = channel_args(opt_view(st.base.channel)) + seq![st.base.subcommand@] + package_args(opt_view(c.package_name))
        + target_flags(opt_view(c.file_path), opt_view(c.package_name)) + st.base.default_args.deep_view();
    match c.runnable_kind {
        RunnableKind::Test { test_name, .. } => {
            let t = seq!["--"@, test_path(opt_view(c.file_path), opt_view(c.mod_path), test_name@), "--exact"@];
            assert(a =~= head + t);
            assert(a.subrange(a.len() - 3, a.len() as int) =~= t);
        },
        RunnableKind::ModuleTests { module_name } => {
            if module_name@.len() > 0 {
                let t = seq!["--"@, module_filter(opt_view(c.file_path), module_name@)];
                assert(a =~= head + t);
                assert(a.subrange(a.len() - 2, a.len() as int) =~= t);
            }
        },
        _ => {},
    }
}

/// With nextest, one test runs alone: the last argument is the test's path.
pub proof fn lemma_nextest_test_filter(st: CargoNextestStrategy, c: CommandContext)
    ensures
        st.command_spec(c) is Ok,
        c.runnable_kind matches RunnableKind::Test { test_name, .. } ==> ({
            let a = st.command_spec(c)->Ok_0.args;
            &&& a.len() > 0
            &&& a.last() == test_path(opt_view(c.file_path), opt_view(c.mod_path), test_name@)
        }),
{
}

/// The arguments of `cargo nextest` after the target flags.
pub open spec fn nextest_tail(c: CommandContext) -> Seq<Seq<char>> {
    let file = opt_view(c.file_path);
    match c.runnable_kind {
        RunnableKind::Test { test_name, .. } => seq![test_path(file, opt_view(c.mod_path), test_name@)],
        RunnableKind::ModuleTests { module_name } => if module_name@.len() > 0 {
            seq![module_filter(file, module_name@)]
        } else {
            Seq::empty()
        },
        _ => Seq::empty(),
    }
}

/// The arguments of `cargo nextest run`.
pub open spec fn nextest_args(base: CargoStrategy, c: CommandContext) -> Seq<Seq<char>> {
    channel_args(opt_view(base.channel)) + seq![base.subcommand@] + base.default_args.deep_view()
        + package_args(opt_view(c.package_name)) + target_flags(opt_view(c.file_path), opt_view(c.package_name))
        + nextest_tail(c)
}

/// Cargo nextest strategy.
#[derive(Debug)]
pub struct CargoNextestStrategy {
    pub base: CargoStrategy,
}

impl CargoNextestStrategy {
    /// `cargo nextest run`, named `cargo-nextest`.
    pub fn new() -> (r: Self)
        ensures
            r.base.name@ == "cargo-nextest"@,
            r.base.subcommand@ == "nextest"@,
            r.base.channel is None,
            r.base.default_args.deep_view() == seq!["run"@],
    {
        let mut args: Vec<String> = Vec::new();
        push_string(&mut args, text("run"));
        assert(args.deep_view() =~= seq!["run"@]);
        CargoNextestStrategy { base: CargoStrategy::new("cargo-nextest", "nextest").with_args(args) }
    }
}

fn push_nextest_tail(args: &mut Vec<String>, c: &CommandContext)
    ensures
        final(args).deep_view() == old(args).deep_view() + nextest_tail(*c),
{
    let ghost start = args.deep_view();
    match &c.runnable_kind {
        RunnableKind::Test { test_name, .. } => {
            push_string(args, test_path_of(&c.file_path, &c.mod_path, test_name.as_str()));
        },
        RunnableKind::ModuleTests { module_name } => {
            if module_name.unicode_len() > 0 {
                push_string(args, module_filter_of(&c.file_path, module_name.as_str()));
            }
        },
        _ => {},
    }
    assert(args.deep_view() =~= start + nextest_tail(*c));
}

impl FrameworkStrategy for CargoNextestStrategy {
    open spec fn command_spec(&self, c: CommandContext) -> Result<CargoCommandView, Seq<char>> {
        Ok(in_dir(plain_command(CommandType::Cargo, nextest_args(self.base, c)), opt_view(c.working_dir)))
    }

    open spec fn name_spec(&self) -> Seq<char> {
        self.base.name@
    }

    open spec fn kind_spec(&self) -> FrameworkKind {
        FrameworkKind::Test
    }

    fn build_command(&self, context: &CommandContext) -> (r: Result<CargoCommand, String>) {
        let mut args: Vec<String> = Vec::new();
        proof {
            assert(args.deep_view() =~= Seq::<Seq<char>>::empty());
        }
        push_channel(&mut args, &self.base.channel);
        push_string(&mut args, self.base.subcommand.clone());
        extend_strings(&mut args, &self.base.default_args);
        push_package(&mut args, &context.package_name);
        push_target_flags(&mut args, &context.file_path, &context.package_name);
        push_nextest_tail(&mut args, context);
        proof {
            assert(args.deep_view() =~= nextest_args(self.base, *context));
        }
        Ok(finish(CargoCommand::new(args), &context.working_dir))
    }

    fn name(&self) -> (r: &str) {
        self.base.name.as_str()
    }

    fn framework_kind(&self) -> (r: FrameworkKind) {
        FrameworkKind::Test
    }
}

/// Running the tests of a named module with nextest, the command ends with
/// the module filter, after the target flags: the module's name, shortened
/// to what follows `benches::<file>::` inside a benchmark file. Outside a
/// benchmark file the last argument is the module's name itself, so only
/// that module's tests run.
pub proof fn lemma_nextest_module_filter(st: CargoNextestStrategy, c: CommandContext, module: String)
    requires
        c.runnable_kind == (RunnableKind::ModuleTests { module_name: module }),
        module@.len() > 0,
    ensures
        st.command_spec(c) matches Ok(cmd) && cmd.args == channel_args(opt_view(st.base.channel))
            + seq![st.base.subcommand@] + st.base.default_args.deep_view() + package_args(opt_view(c.package_name))
            + target_flags(opt_view(c.file_path), opt_view(c.package_name)) + seq![module_filter(opt_view(c.file_path), module@)],
        st.command_spec(c) matches Ok(cmd) && cmd.args.len() > 0
            && cmd.args.last() == module_filter(opt_view(c.file_path), module@),
        !(c.file_path matches Some(f) && (seq_contains(f@, "/benches/"@) || seq_contains(f@, "\\benches\\"@)))
            ==> (st.command_spec(c) matches Ok(cmd) && cmd.args.last() == module@ && cmd.args.contains(module@)),
{
    let cmd = st.command_spec(c)->Ok_0;
    assert(cmd.args.last() == module_filter(opt_view(c.file_path), module@));
    if !(c.file_path matches Some(f) && (seq_contains(f@, "/benches/"@) || seq_contains(f@, "\\benches\\"@))) {
        assert(cmd.args[cmd.args.len() - 1] == module@);
    }
}

/// The binary `cargo run` is pointed at: the named binary, the example, the
/// package's main binary for `src/main.rs`, or the binary named by the file.
pub open spec fn run_target(c: CommandContext) -> Seq<Seq<char>> {
    match c.runnable_kind {
        RunnableKind::Binary { bin_name } => match bin_name {
            Some(n) => seq!["--bin"@, n@],
            None => match c.file_path {
                Some(f) => if is_example_path(f@) {
                    stem_args("--example"@, f@)
                } else if is_suffix("src/main.rs"@, f@) {
                    match c.package_name {
                        Some(p) => seq!["--bin"@, p@],
                        None => Seq::empty(),
                    }
                } else {
                    stem_args("--bin"@, f@)
                },
                None => Seq::empty(),
            },
        },
        _ => Seq::empty(),
    }
}

/// The arguments of `cargo run`.
pub open spec fn cargo_run_args(base: CargoStrategy, c: CommandContext) -> Seq<Seq<char>> {
    channel_args(opt_view(base.channel)) + seq![base.subcommand@] + package_args(opt_view(c.package_name))
        + run_target(c) + base.default_args.deep_view()
}

/// Cargo run strategy for binaries.
#[derive(Debug)]
pub struct CargoRunStrategy {
    pub base: CargoStrategy,
}

impl CargoRunStrategy {
    /// `cargo run`, named `cargo-run`.
    pub fn new() -> (r: Self)
        ensures
            r.base.name@ == "cargo-run"@,
            r.base.subcommand@ == "run"@,
            r.base.channel is None,
            r.base.default_args.deep_view() == Seq::<Seq<char>>::empty(),
    {
        CargoRunStrategy { base: CargoStrategy::new("cargo-run", "run") }
    }
}

fn push_run_target(args: &mut Vec<String>, c: &CommandContext)
    ensures
        final(args).deep_view() == old(args).deep_view() + run_target(*c),
{
    let ghost start = args.deep_view();
    match &c.runnable_kind {
        RunnableKind::Binary { bin_name } => match bin_name {
            Some(n) => {
                push_string(args, text("--bin"));
                push_string(args, n.clone());
            },
            None => match &c.file_path {
                Some(f) => {
                    if in_examples(f.as_str()) {
                        push_stem(args, "--example", f.as_str());
                    } else if ends_with(f.as_str(), "src/main.rs") {
                        match &c.package_name {
                            Some(p) => {
                                push_string(args, text("--bin"));
                                push_string(args, p.clone());
                            },
                            None => {},
                        }
                    } else {
                        push_stem(args, "--bin", f.as_str());
                    }
                },
                None => {},
            },
        },
        _ => {},
    }
    assert(args.deep_view() =~= start + run_target(*c));
}

impl FrameworkStrategy for CargoRunStrategy {
    open spec fn command_spec(&self, c: CommandContext) -> Result<CargoCommandView, Seq<char>> {
        Ok(in_dir(plain_command(CommandType::Cargo, cargo_run_args(self.base, c)), opt_view(c.working_dir)))
    }

    open spec fn name_spec(&self) -> Seq<char> {
        self.base.name@
    }

    open spec fn kind_spec(&self) -> FrameworkKind {
        FrameworkKind::Binary
    }

    fn build_command(&self, context: &CommandContext) -> (r: Result<CargoCommand, String>) {
        let mut args: Vec<String> = Vec::new();
        proof {
            assert(args.deep_view() =~= Seq::<Seq<char>>::empty());
        }
        push_channel(&mut args, &self.base.channel);
        push_string(&mut args, self.base.subcommand.clone());
        push_package(&mut args, &context.package_name);
        push_run_target(&mut args, context);
        extend_strings(&mut args, &self.base.default_args);
        proof {
            assert(args.deep_view() =~= cargo_run_args(self.base, *context));
        }
        Ok(finish(CargoCommand::new(args), &context.working_dir))
    }

    fn name(&self) -> (r: &str) {
        self.base.name.as_str()
    }

    fn framework_kind(&self) -> (r: FrameworkKind) {
        FrameworkKind::Binary
    }
}

/// Running a file under an `examples` directory as a binary with no name
/// given, `cargo run` is pointed at the example named by the file's stem:
/// right after the package arguments stand exactly `--example <stem>`, and
/// no `--bin` target is given for such a file.
pub proof fn lemma_example_file_runs_example(st: CargoRunStrategy, c: CommandContext, f: String, stem: Seq<char>)
    requires
        c.runnable_kind == (RunnableKind::Binary { bin_name: None }),
        c.file_path == Some(f),
        seq_contains(f@, "/examples/"@) || seq_contains(f@, "\\examples\\"@),
        file_stem_spec(f@) == Some(stem),
    ensures
        st.command_spec(c) matches Ok(cmd) && cmd.args == channel_args(opt_view(st.base.channel))
            + seq![st.base.subcommand@] + package_args(opt_view(c.package_name)) + seq!["--example"@, stem]
            + st.base.default_args.deep_view(),
        run_target(c) == seq!["--example"@, stem],
{
}

/// Running a binary given by name, `cargo run` is pointed at it: right
/// after the package arguments stand exactly `--bin <name>`.
pub proof fn lemma_named_binary_runs(st: CargoRunStrategy, c: CommandContext, name: String)
    requires
        c.runnable_kind == (RunnableKind::Binary { bin_name: Some(name) }),
    ensures
        st.command_spec(c) matches Ok(cmd) && cmd.args == channel_args(opt_view(st.base.channel))
            + seq![st.base.subcommand@] + package_args(opt_view(c.package_name)) + seq!["--bin"@, name@]
            + st.base.default_args.deep_view(),
{
}

/// Running a binary with no name given from a file that lies neither under
/// an `examples` directory nor at `src/main.rs`, `cargo run` is pointed at
/// the binary named by the file's stem; from `src/main.rs` it is pointed at
/// the binary named like the package.
pub proof fn lemma_unnamed_binary_runs(st: CargoRunStrategy, c: CommandContext, f: String)
    requires
        c.runnable_kind == (RunnableKind::Binary { bin_name: None }),
        c.file_path == Some(f),
        !seq_contains(f@, "/examples/"@),
        !seq_contains(f@, "\\examples\\"@),
    ensures
        st.command_spec(c) is Ok,
        !is_suffix("src/main.rs"@, f@) && file_stem_spec(f@) is Some ==> st.command_spec(c)->Ok_0.args
            == channel_args(opt_view(st.base.channel)) + seq![st.base.subcommand@] + package_args(
            opt_view(c.package_name),
        ) + seq!["--bin"@, file_stem_spec(f@)->0] + st.base.default_args.deep_view(),
        is_suffix("src/main.rs"@, f@) && c.package_name is Some ==> st.command_spec(c)->Ok_0.args
            == channel_args(opt_view(st.base.channel)) + seq![st.base.subcommand@] + package_args(
            opt_view(c.package_name),
        ) + seq!["--bin"@, (c.package_name->0)@] + st.base.default_args.deep_view(),
{
}

/// `--bench <name>` for the function name, when there is one.
pub open spec fn function_bench(c: CommandContext) -> Seq<Seq<char>> {
    match c.function_name {
        Some(b) => seq!["--bench"@, b@],
        None => Seq::empty(),
    }
}

/// The benchmark `cargo bench` is pointed at.
pub open spec fn bench_target(c: CommandContext) -> Seq<Seq<char>> {
    match c.runnable_kind {
        RunnableKind::Benchmark { bench_name } => seq!["--bench"@, bench_name@],
        _ => match c.file_path {
            Some(f) => if is_bench_path(f@) {
                stem_args("--bench"@, f@)
            } else {
                function_bench(c)
            },
            None => function_bench(c),
        },
    }
}

/// The arguments of `cargo bench`.
pub open spec fn cargo_bench_args(base: CargoStrategy, c: CommandContext) -> Seq<Seq<char>> {
    channel_args(opt_view(base.channel)) + seq![base.subcommand@] + package_args(opt_view(c.package_name))
        + target_flags(opt_view(c.file_path), opt_view(c.package_name)) + base.default_args.deep_view()
        + bench_target(c)
}

/// Cargo bench strategy.
#[derive(Debug)]
pub struct CargoBenchStrategy {
    pub base: CargoStrategy,
}

impl CargoBenchStrategy {
    /// `cargo bench`, named `cargo-bench`.
    pub fn new() -> (r: Self)
        ensures
            r.base.name@ == "cargo-bench"@,
            r.base.subcommand@ == "bench"@,
            r.base.channel is None,
            r.base.default_args.deep_view() == Seq::<Seq<char>>::empty(),
    {
        CargoBenchStrategy { base: CargoStrategy::new("cargo-bench", "bench") }
    }
}

fn push_function_bench(args: &mut Vec<String>, c: &CommandContext)
    ensures
        final(args).deep_view() == old(args).deep_view() + function_bench(*c),
{
    let ghost start = args.deep_view();
    match &c.function_name {
        Some(b) => {
            push_string(args, text("--bench"));
            push_string(args, b.clone());
        },
        None => {},
    }
    assert(args.deep_view() =~= start + function_bench(*c));
}

fn push_bench_target(args: &mut Vec<String>, c: &CommandContext)
    ensures
        final(args).deep_view() == old(args).deep_view() + bench_target(*c),
{
    let ghost start = args.deep_view();
    match &c.runnable_kind {
        RunnableKind::Benchmark { bench_name } => {
            push_string(args, text("--bench"));
            push_string(args, bench_name.clone());
        },
        _ => match &c.file_path {
            Some(f) => {
                if in_benches(f.as_str()) {
                    push_stem(args, "--bench", f.as_str());
                } else {
                    push_function_bench(args, c);
                }
            },
            None => push_function_bench(args, c),
        },
    }
    assert(args.deep_view() =~= start + bench_target(*c));
}

impl FrameworkStrategy for CargoBenchStrategy {
    open spec fn command_spec(&self, c: CommandContext) -> Result<CargoCommandView, Seq<char>> {
        Ok(in_dir(plain_command(CommandType::Cargo, cargo_bench_args(self.base, c)), opt_view(c.working_dir)))
    }

    open spec fn name_spec(&self) -> Seq<char> {
        self.base.name@
    }

    open spec fn kind_spec(&self) -> FrameworkKind {
        FrameworkKind::Benchmark
    }

    fn build_command(&self, context: &CommandContext) -> (r: Result<CargoCommand, String>) {
        let mut args: Vec<String> = Vec::new();
        proof {
            assert(args.deep_view() =~= Seq::<Seq<char>>::empty());
        }
        push_channel(&mut args, &self.base.channel);
        push_string(&mut args, self.base.subcommand.clone());
        push_package(&mut args, &context.package_name);
        push_target_flags(&mut args, &context.file_path, &context.package_name);
        extend_strings(&mut args, &self.base.default_args);
        push_bench_target(&mut args, context);
        proof {
            assert(args.deep_view() =~= cargo_bench_args(self.base, *context));
        }
        Ok(finish(CargoCommand::new(args), &context.working_dir))
    }

    fn name(&self) -> (r: &str) {
        self.base.name.as_str()
    }

    fn framework_kind(&self) -> (r: FrameworkKind) {
        FrameworkKind::Benchmark
    }
}

/// Running a named benchmark, `cargo bench` ends with `--bench <name>`.
pub proof fn lemma_named_benchmark_runs(st: CargoBenchStrategy, c: CommandContext, name: String)
    requires
        c.runnable_kind == (RunnableKind::Benchmark { bench_name: name }),
    ensures
        st.command_spec(c) is Ok,
        ({
            let a = st.command_spec(c)->Ok_0.args;
            &&& a.len() >= 2
            &&& a.subrange(a.len() - 2, a.len() as int) == seq!["--bench"@, name@]
        }),
{
    let a = st.command_spec(c)->Ok_0.args;
    let head = channel_args(opt_view(st.base.channel)) + seq![st.base.subcommand@] + package_args(opt_view(c.package_name))
        + target_flags(opt_view(c.file_path), opt_view(c.package_name)) + st.base.default_args.deep_view();
    assert(a =~= head + seq!["--bench"@, name@]);
    assert(a.subrange(a.len() - 2, a.len() as int) =~= seq!["--bench"@, name@]);
}

/// The filter of `cargo test --doc` for a doc test.
pub open spec fn doc_tail(c: CommandContext) -> Seq<Seq<char>> {
    match c.runnable_kind {
        RunnableKind::DocTest { struct_or_module_name, method_name } =>
            seq!["--"@, doc_filter(struct_or_module_name@, opt_view(method_name))],
        _ => Seq::empty(),
    }
}

/// The arguments of `cargo test --doc`.
pub open spec fn cargo_doctest_args(base: CargoStrategy, c: CommandContext) -> Seq<Seq<char>> {
    channel_args(opt_view(base.channel)) + seq![base.subcommand@] + package_args(opt_view(c.package_name))
        + base.default_args.deep_view() + doc_tail(c)
}

/// Cargo doctest strategy.
#[derive(Debug)]
pub struct CargoDocTestStrategy {
    pub base: CargoStrategy,
}

impl CargoDocTestStrategy {
    /// `cargo test --doc`, named `cargo-doctest`.
    pub fn new() -> (r: Self)
        ensures
            r.base.name@ == "cargo-doctest"@,
            r.base.subcommand@ == "test"@,
            r.base.channel is None,
            r.base.default_args.deep_view() == seq!["--doc"@],
    {
        let mut args: Vec<String> = Vec::new();
        push_string(&mut args, text("--doc"));
        assert(args.deep_view() =~= seq!["--doc"@]);
        CargoDocTestStrategy { base: CargoStrategy::new("cargo-doctest", "test").with_args(args) }
    }
}

/// A doc test runs alone: `cargo test --doc` ends with `--` and the doc
/// test's filter, `Type::method` for a method and the item's name otherwise.
pub proof fn lemma_doctest_filter(st: CargoDocTestStrategy, c: CommandContext, item: String, method: Option<String>)
    requires
        c.runnable_kind == (RunnableKind::DocTest { struct_or_module_name: item, method_name: method }),
    ensures
        st.command_spec(c) is Ok,
        ({
            let a = st.command_spec(c)->Ok_0.args;
            &&& a.len() >= 2
            &&& a[a.len() - 2] == "--"@
            &&& (method is None ==> a.last() == item@)
            &&& (method is Some ==> a.last() == qualified(item@, (method->0)@))
        }),
{
}

impl FrameworkStrategy for CargoDocTestStrategy {
    open spec fn command_spec(&self, c: CommandContext) -> Result<CargoCommandView, Seq<char>> {
        Ok(in_dir(plain_command(CommandType::Cargo, cargo_doctest_args(self.base, c)), opt_view(c.working_dir)))
    }

    open spec fn name_spec(&self) -> Seq<char> {
        self.base.name@
    }

    open spec fn kind_spec(&self) -> FrameworkKind {
        FrameworkKind::DocTest
    }

    fn build_command(&self, context: &CommandContext) -> (r: Result<CargoCommand, String>) {
        let mut args: Vec<String> = Vec::new();
        proof {
            assert(args.deep_view() =~= Seq::<Seq<char>>::empty());
        }
        push_channel(&mut args, &self.base.channel);
        push_string(&mut args, self.base.subcommand.clone());
        push_package(&mut args, &context.package_name);
        extend_strings(&mut args, &self.base.default_args);
        let ghost before = args.deep_view();
        match &context.runnable_kind {
            RunnableKind::DocTest { struct_or_module_name, method_name } => {
                push_string(&mut args, text("--"));
                push_string(&mut args, doc_filter_of(struct_or_module_name.as_str(), method_name));
            },
            _ => {},
        }
        proof {
            assert(args.deep_view() =~= before + doc_tail(*context));
            assert(args.deep_view() =~= cargo_doctest_args(self.base, *context));
        }
        Ok(finish(CargoCommand::new(args), &context.working_dir))
    }

    fn name(&self) -> (r: &str) {
        self.base.name.as_str()
    }

    fn framework_kind(&self) -> (r: FrameworkKind) {
        FrameworkKind::DocTest
    }
}

/// The arguments of `cargo build`.
pub open spec fn cargo_build_args(base: CargoStrategy, c: CommandContext) -> Seq<Seq<char>> {
    channel_args(opt_view(base.channel)) + seq![base.subcommand@] + package_args(opt_view(c.package_name))
        + base.default_args.deep_view()
}

/// Cargo build strategy.
#[derive(Debug)]
pub struct CargoBuildStrategy {
    pub base: CargoStrategy,
}

impl CargoBuildStrategy {
    /// `cargo build`, named `cargo-build`.
    pub fn new() -> (r: Self)
        ensures
            r.base.name@ == "cargo-build"@,
            r.base.subcommand@ == "build"@,
            r.base.channel is None,
            r.base.default_args.deep_view() == Seq::<Seq<char>>::empty(),
    {
        CargoBuildStrategy { base: CargoStrategy::new("cargo-build", "build") }
    }
}

impl FrameworkStrategy for CargoBuildStrategy {
    open spec fn command_spec(&self, c: CommandContext) -> Result<CargoCommandView, Seq<char>> {
        Ok(in_dir(plain_command(CommandType::Cargo, cargo_build_args(self.base, c)), opt_view(c.working_dir)))
    }

    open spec fn name_spec(&self) -> Seq<char> {
        self.base.name@
    }

    open spec fn kind_spec(&self) -> FrameworkKind {
        FrameworkKind::Build
    }

    fn build_command(&self, context: &CommandContext) -> (r: Result<CargoCommand, String>) {
        let mut args: Vec<String> = Vec::new();
        proof {
            assert(args.deep_view() =~= Seq::<Seq<char>>::empty());
        }
        push_channel(&mut args, &self.base.channel);
        push_string(&mut args, self.base.subcommand.clone());
        push_package(&mut args, &context.package_name);
        extend_strings(&mut args, &self.base.default_args);
        proof {
            assert(args.deep_view() =~= cargo_build_args(self.base, *context));
        }
        Ok(finish(CargoCommand::new(args), &context.working_dir))
    }

    fn name(&self) -> (r: &str) {
        self.base.name.as_str()
    }

    fn framework_kind(&self) -> (r: FrameworkKind) {
        FrameworkKind::Build
    }
}

// ---------------------------------------------------------------------------
// Bazel strategies.

/// The rule builds the file (one of its sources ends the file's path) and,
/// when a kind is asked for, is of that kind.
pub open spec fn serves(t: BazelTarget, file: Seq<char>, kind: Option<BazelTargetKind>) -> bool {
    &&& (kind matches Some(k) ==> t.kind == k)
    &&& exists|j: int| 0 <= j < t.sources@.len() && is_suffix(#[trigger] t.sources@[j]@, file)
}

/// The label of the first rule that serves the file.
pub open spec fn rule_for(ts: Seq<BazelTarget>, file: Seq<char>, kind: Option<BazelTargetKind>) -> Option<Seq<char>>
    decreases ts.len(),
{
    if ts.len() == 0 {
        None
    } else if serves(ts[0], file, kind) {
        Some(ts[0].label@)
    } else {
        rule_for(ts.drop_first(), file, kind)
    }
}

/// The label of the rule for a file, or the error: no BUILD file, or no
/// rule of the wanted kind (`what` names it in the message).
pub open spec fn find_rule(
    targets: Option<Vec<BazelTarget>>,
    file: Seq<char>,
    kind: Option<BazelTargetKind>,
    what: Seq<char>,
) -> Result<Seq<char>, Seq<char>> {
    match targets {
        None => Err("No BUILD file found"@),
        Some(ts) => match rule_for(ts@, file, kind) {
            Some(l) => Ok(l),
            None => Err("No "@ + what + " target found for "@ + file),
        },
    }
}

fn rule_serves(t: &BazelTarget, file: &str, kind: Option<BazelTargetKind>) -> (r: bool)
    ensures
        r == serves(*t, file@, kind),
{
    match kind {
        Some(k) => {
            if t.kind != k {
                return false;
            }
        },
        None => {},
    }
    let mut j: usize = 0;
    while j < t.sources.len()
        invariant
            j <= t.sources@.len(),
            kind matches Some(k) ==> t.kind == k,
            forall|i: int| 0 <= i < j ==> !is_suffix(#[trigger] t.sources@[i]@, file@),
        decreases t.sources.len() - j,
    {
        if ends_with(file, t.sources[j].as_str()) {
            return true;
        }
        j = j + 1;
    }
    false
}

fn find_rule_label(
    targets: &Option<Vec<BazelTarget>>,
    file: &str,
    kind: Option<BazelTargetKind>,
    what: &str,
) -> (r: Result<String, String>)
    ensures
        match r {
            Ok(l) => find_rule(*targets, file@, kind, what@) == Ok::<Seq<char>, Seq<char>>(l@),
            Err(e) => find_rule(*targets, file@, kind, what@) == Err::<Seq<char>, Seq<char>>(e@),
        },
{
    match targets {
        None => Err(text("No BUILD file found")),
        Some(ts) => {
            let mut i: usize = 0;
            assert(ts@.subrange(0, ts@.len() as int) =~= ts@);
            while i < ts.len()
                invariant
                    i <= ts@.len(),
                    *targets matches Some(v) && v@ == ts@,
                    rule_for(ts@.subrange(i as int, ts@.len() as int), file@, kind) == rule_for(ts@, file@, kind),
                decreases ts.len() - i,
            {
                let ghost rest = ts@.subrange(i as int, ts@.len() as int);
                assert(rest[0] == ts@[i as int]);
                assert(rest.drop_first() =~= ts@.subrange(i + 1, ts@.len() as int));
                if rule_serves(&ts[i], file, kind) {
                    let l = ts[i].label.clone();
                    assert(rule_for(rest, file@, kind) == Some(ts@[i as int].label@));
                    assert(l@ == ts@[i as int].label@);
                    return Ok(l);
                }
                i = i + 1;
            }
            let mut msg = concat3("No ", what, " target found for ");
            msg.append(file);
            Err(msg)
        },
    }
}

/// The command of `bazel test`.
pub open spec fn bazel_test_spec(c: CommandContext) -> Result<CargoCommandView, Seq<char>> {
    match c.file_path {
        None => Ok(in_dir(plain_command(CommandType::Bazel, seq!["test"@]), opt_view(c.working_dir))),
        Some(f) => match find_rule(c.build_targets, f@, Some(BazelTargetKind::Test), "test"@) {
            Err(e) => Err(e),
            Ok(label) => Ok(in_dir(plain_command(CommandType::Bazel, seq!["test"@, label] + match c.function_name {
                Some(t) => seq!["--test_filter="@ + t@],
                None => Seq::empty(),
            }), opt_view(c.working_dir))),
        },
    }
}

/// Bazel test strategy.
#[derive(Debug)]
pub struct BazelTestStrategy {
    pub name: String,
}

impl BazelTestStrategy {
    /// `bazel test`, named `bazel-test`.
    pub fn new() -> (r: Self)
        ensures
            r.name@ == "bazel-test"@,
    {
        BazelTestStrategy { name: text("bazel-test") }
    }
}

impl FrameworkStrategy for BazelTestStrategy {
    open spec fn command_spec(&self, c: CommandContext) -> Result<CargoCommandView, Seq<char>> {
        bazel_test_spec(c)
    }

    open spec fn name_spec(&self) -> Seq<char> {
        self.name@
    }

    open spec fn kind_spec(&self) -> FrameworkKind {
        FrameworkKind::Test
    }

    fn build_command(&self, context: &CommandContext) -> (r: Result<CargoCommand, String>) {
        let mut args: Vec<String> = Vec::new();
        push_string(&mut args, text("test"));
        match &context.file_path {
            Some(f) => {
                match find_rule_label(&context.build_targets, f.as_str(), Some(BazelTargetKind::Test), "test") {
                    Ok(label) => push_string(&mut args, label),
                    Err(e) => return Err(e),
                }
                match &context.function_name {
                    Some(t) => push_string(&mut args, concat2("--test_filter=", t.as_str())),
                    None => {},
                }
            },
            None => {},
        }
        proof {
            if context.file_path is Some {
                    let f = context.file_path->0;
                    let label = find_rule(context.build_targets, f@, Some(BazelTargetKind::Test), "test"@)->Ok_0;
                    assert(args.deep_view() =~= seq!["test"@, label] + match context.function_name {
                        Some(t) => seq!["--test_filter="@ + t@],
                        None => Seq::<Seq<char>>::empty(),
                    });
            } else {
                    assert(args.deep_view() =~= seq!["test"@]);
            }
        }
        Ok(finish(CargoCommand::new_bazel(args), &context.working_dir))
    }

    fn name(&self) -> (r: &str) {
        self.name.as_str()
    }

    fn framework_kind(&self) -> (r: FrameworkKind) {
        FrameworkKind::Test
    }
}

/// The command of `bazel run` (`verb` is `run`) or `bazel build` (`verb`
/// is `build`) for the rule that serves the file.
pub open spec fn bazel_rule_spec(
    c: CommandContext,
    verb: Seq<char>,
    kind: Option<BazelTargetKind>,
    what: Seq<char>,
) -> Result<CargoCommandView, Seq<char>> {
    match c.file_path {
        None => Ok(in_dir(plain_command(CommandType::Bazel, seq![verb]), opt_view(c.working_dir))),
        Some(f) => match find_rule(c.build_targets, f@, kind, what) {
            Err(e) => Err(e),
            Ok(label) => Ok(in_dir(plain_command(CommandType::Bazel, seq![verb, label]), opt_view(c.working_dir))),
        },
    }
}

fn bazel_rule_command(
    c: &CommandContext,
    verb: &str,
    kind: Option<BazelTargetKind>,
    what: &str,
) -> (r: Result<CargoCommand, String>)
    ensures
        match r {
            Ok(cmd) => bazel_rule_spec(*c, verb@, kind, what@) == Ok::<CargoCommandView, Seq<char>>(cmd@),
            Err(e) => bazel_rule_spec(*c, verb@, kind, what@) == Err::<CargoCommandView, Seq<char>>(e@),
        },
{
    let mut args: Vec<String> = Vec::new();
    push_string(&mut args, text(verb));
    match &c.file_path {
        Some(f) => match find_rule_label(&c.build_targets, f.as_str(), kind, what) {
            Ok(label) => push_string(&mut args, label),
            Err(e) => return Err(e),
        },
        None => {},
    }
    proof {
        if c.file_path is Some {
            let label = find_rule(c.build_targets, c.file_path->0@, kind, what@)->Ok_0;
            assert(args.deep_view() =~= seq![verb@, label]);
        } else {
            assert(args.deep_view() =~= seq![verb@]);
        }
    }
    Ok(finish(CargoCommand::new_bazel(args), &c.working_dir))
}

/// Bazel run strategy.
#[derive(Debug)]
pub struct BazelRunStrategy {
    pub name: String,
}

impl BazelRunStrategy {
    /// `bazel run`, named `bazel-run`.
    pub fn new() -> (r: Self)
        ensures
            r.name@ == "bazel-run"@,
    {
        BazelRunStrategy { name: text("bazel-run") }
    }
}

impl FrameworkStrategy for BazelRunStrategy {
    open spec fn command_spec(&self, c: CommandContext) -> Result<CargoCommandView, Seq<char>> {
        bazel_rule_spec(c, "run"@, Some(BazelTargetKind::Binary), "binary"@)
    }

    open spec fn name_spec(&self) -> Seq<char> {
        self.name@
    }

    open spec fn kind_spec(&self) -> FrameworkKind {
        FrameworkKind::Binary
    }

    fn build_command(&self, context: &CommandContext) -> (r: Result<CargoCommand, String>) {
        bazel_rule_command(context, "run", Some(BazelTargetKind::Binary), "binary")
    }

    fn name(&self) -> (r: &str) {
        self.name.as_str()
    }

    fn framework_kind(&self) -> (r: FrameworkKind) {
        FrameworkKind::Binary
    }
}

/// Bazel build strategy.
#[derive(Debug)]
pub struct BazelBuildStrategy {
    pub name: String,
}

impl BazelBuildStrategy {
    /// `bazel build`, named `bazel-build`.
    pub fn new() -> (r: Self)
        ensures
            r.name@ == "bazel-build"@,
    {
        BazelBuildStrategy { name: text("bazel-build") }
    }
}

impl FrameworkStrategy for BazelBuildStrategy {
    open spec fn command_spec(&self, c: CommandContext) -> Result<CargoCommandView, Seq<char>> {
        bazel_rule_spec(c, "build"@, None, "build"@)
    }

    open spec fn name_spec(&self) -> Seq<char> {
        self.name@
    }

    open spec fn kind_spec(&self) -> FrameworkKind {
        FrameworkKind::Build
    }

    fn build_command(&self, context: &CommandContext) -> (r: Result<CargoCommand, String>) {
        bazel_rule_command(context, "build", None, "build")
    }

    fn name(&self) -> (r: &str) {
        self.name.as_str()
    }

    fn framework_kind(&self) -> (r: FrameworkKind) {
        FrameworkKind::Build
    }
}

/// The command of `bazel run //:<name>_bench`.
pub open spec fn bazel_bench_spec(c: CommandContext) -> CargoCommandView {
    in_dir(plain_command(CommandType::Bazel, seq!["run"@] + match c.function_name {
        Some(b) => seq!["//:"@ + b@ + "_bench"@],
        None => Seq::empty(),
    }), opt_view(c.working_dir))
}

/// Bazel benchmark strategy.
#[derive(Debug)]
pub struct BazelBenchStrategy {
    pub name: String,
}

impl BazelBenchStrategy {
    /// `bazel run` of a benchmark, named `bazel-bench`.
    pub fn new() -> (r: Self)
        ensures
            r.name@ == "bazel-bench"@,
    {
        BazelBenchStrategy { name: text("bazel-bench") }
    }
}

impl FrameworkStrategy for BazelBenchStrategy {
    open spec fn command_spec(&self, c: CommandContext) -> Result<CargoCommandView, Seq<char>> {
        Ok(bazel_bench_spec(c))
    }

    open spec fn name_spec(&self) -> Seq<char> {
        self.name@
    }

    open spec fn kind_spec(&self) -> FrameworkKind {
        FrameworkKind::Benchmark
    }

    fn build_command(&self, context: &CommandContext) -> (r: Result<CargoCommand, String>) {
        let mut args: Vec<String> = Vec::new();
        push_string(&mut args, text("run"));
        match &context.function_name {
            Some(b) => push_string(&mut args, concat3("//:", b.as_str(), "_bench")),
            None => {},
        }
        proof {
            assert(args.deep_view() =~= seq!["run"@] + match context.function_name {
                Some(b) => seq!["//:"@ + b@ + "_bench"@],
                None => Seq::<Seq<char>>::empty(),
            });
        }
        Ok(finish(CargoCommand::new_bazel(args), &context.working_dir))
    }

    fn name(&self) -> (r: &str) {
        self.name.as_str()
    }

    fn framework_kind(&self) -> (r: FrameworkKind) {
        FrameworkKind::Benchmark
    }
}

// ---------------------------------------------------------------------------
// Framework tools with fixed command lines.

/// A fixed command line, followed by `--package <name>` when `with_package`.
pub open spec fn fixed_command(
    t: CommandType,
    args: Seq<Seq<char>>,
    with_package: bool,
    c: CommandContext,
) -> CargoCommandView {
    in_dir(plain_command(t, args + if with_package {
        package_args(opt_view(c.package_name))
    } else {
        Seq::empty()
    }), opt_view(c.working_dir))
}

/// Leptos watch strategy for development.
#[derive(Debug)]
pub struct LeptosWatchStrategy {
    pub name: String,
}

impl LeptosWatchStrategy {
    /// The strategy named `leptos-watch`.
    pub fn new() -> (r: Self)
        ensures
            r.name@ == "leptos-watch"@,
    {
        LeptosWatchStrategy { name: text("leptos-watch") }
    }
}

impl FrameworkStrategy for LeptosWatchStrategy {
    open spec fn command_spec(&self, c: CommandContext) -> Result<CargoCommandView, Seq<char>> {
        Ok(fixed_command(CommandType::Cargo, seq!["leptos"@, "watch"@], true, c))
    }

    open spec fn name_spec(&self) -> Seq<char> {
        self.name@
    }

    open spec fn kind_spec(&self) -> FrameworkKind {
        FrameworkKind::Binary
    }

    fn build_command(&self, context: &CommandContext) -> (r: Result<CargoCommand, String>) {
        let mut args: Vec<String> = Vec::new();
        proof {
            assert(args.deep_view() =~= Seq::<Seq<char>>::empty());
        }
        push_string(&mut args, text("leptos"));
        push_string(&mut args, text("watch"));
        push_package(&mut args, &context.package_name);
        let cmd = CargoCommand::new(args);
        proof {
            assert(cmd@.args =~= seq!["leptos"@, "watch"@] + if true {
                package_args(opt_view(context.package_name))
            } else {
                Seq::<Seq<char>>::empty()
            });
        }
        Ok(finish(cmd, &context.working_dir))
    }

    fn name(&self) -> (r: &str) {
        self.name.as_str()
    }

    fn framework_kind(&self) -> (r: FrameworkKind) {
        FrameworkKind::Binary
    }
}

/// Dioxus serve strategy for development (the `dx` tool).
#[derive(Debug)]
pub struct DioxusServeStrategy {
    pub name: String,
}

impl DioxusServeStrategy {
    /// The strategy named `dx-serve`.
    pub fn new() -> (r: Self)
        ensures
            r.name@ == "dx-serve"@,
    {
        DioxusServeStrategy { name: text("dx-serve") }
    }
}

impl FrameworkStrategy for DioxusServeStrategy {
    open spec fn command_spec(&self, c: CommandContext) -> Result<CargoCommandView, Seq<char>> {
        Ok(fixed_command(CommandType::Shell, seq!["dx"@, "serve"@], false, c))
    }

    open spec fn name_spec(&self) -> Seq<char> {
        self.name@
    }

    open spec fn kind_spec(&self) -> FrameworkKind {
        FrameworkKind::Binary
    }

    fn build_command(&self, context: &CommandContext) -> (r: Result<CargoCommand, String>) {
        let mut args: Vec<String> = Vec::new();
        proof {
            assert(args.deep_view() =~= Seq::<Seq<char>>::empty());
        }
        push_string(&mut args, text("serve"));
        let cmd = CargoCommand::new_shell(text("dx"), args);
        proof {
            assert(cmd@.args =~= seq!["dx"@, "serve"@] + if false {
                package_args(opt_view(context.package_name))
            } else {
                Seq::<Seq<char>>::empty()
            });
        }
        Ok(finish(cmd, &context.working_dir))
    }

    fn name(&self) -> (r: &str) {
        self.name.as_str()
    }

    fn framework_kind(&self) -> (r: FrameworkKind) {
        FrameworkKind::Binary
    }
}

/// Trunk serve strategy for WASM development.
#[derive(Debug)]
pub struct TrunkServeStrategy {
    pub name: String,
}

impl TrunkServeStrategy {
    /// The strategy named `trunk-serve`.
    pub fn new() -> (r: Self)
        ensures
            r.name@ == "trunk-serve"@,
    {
        TrunkServeStrategy { name: text("trunk-serve") }
    }
}

impl FrameworkStrategy for TrunkServeStrategy {
    open spec fn command_spec(&self, c: CommandContext) -> Result<CargoCommandView, Seq<char>> {
        Ok(fixed_command(CommandType::Shell, seq!["trunk"@, "serve"@, "--open"@], false, c))
    }

    open spec fn name_spec(&self) -> Seq<char> {
        self.name@
    }

    open spec fn kind_spec(&self) -> FrameworkKind {
        FrameworkKind::Binary
    }

    fn build_command(&self, context: &CommandContext) -> (r: Result<CargoCommand, String>) {
        let mut args: Vec<String> = Vec::new();
        proof {
            assert(args.deep_view() =~= Seq::<Seq<char>>::empty());
        }
        push_string(&mut args, text("serve"));
        push_string(&mut args, text("--open"));
        let cmd = CargoCommand::new_shell(text("trunk"), args);
        proof {
            assert(cmd@.args =~= seq!["trunk"@, "serve"@, "--open"@] + if false {
                package_args(opt_view(context.package_name))
            } else {
                Seq::<Seq<char>>::empty()
            });
        }
        Ok(finish(cmd, &context.working_dir))
    }

    fn name(&self) -> (r: &str) {
        self.name.as_str()
    }

    fn framework_kind(&self) -> (r: FrameworkKind) {
        FrameworkKind::Binary
    }
}

/// Cargo Tauri strategy.
#[derive(Debug)]
pub struct CargoTauriStrategy {
    pub name: String,
}

impl CargoTauriStrategy {
    /// The strategy named `cargo-tauri`.
    pub fn new() -> (r: Self)
        ensures
            r.name@ == "cargo-tauri"@,
    {
        CargoTauriStrategy { name: text("cargo-tauri") }
    }
}

impl FrameworkStrategy for CargoTauriStrategy {
    open spec fn command_spec(&self, c: CommandContext) -> Result<CargoCommandView, Seq<char>> {
        Ok(fixed_command(CommandType::Cargo, seq!["tauri"@, "dev"@], false, c))
    }

    open spec fn name_spec(&self) -> Seq<char> {
        self.name@
    }

    open spec fn kind_spec(&self) -> FrameworkKind {
        FrameworkKind::Binary
    }

    fn build_command(&self, context: &CommandContext) -> (r: Result<CargoCommand, String>) {
        let mut args: Vec<String> = Vec::new();
        proof {
            assert(args.deep_view() =~= Seq::<Seq<char>>::empty());
        }
        push_string(&mut args, text("tauri"));
        push_string(&mut args, text("dev"));
        let cmd = CargoCommand::new(args);
        proof {
            assert(cmd@.args =~= seq!["tauri"@, "dev"@] + if false {
                package_args(opt_view(context.package_name))
            } else {
                Seq::<Seq<char>>::empty()
            });
        }
        Ok(finish(cmd, &context.working_dir))
    }

    fn name(&self) -> (r: &str) {
        self.name.as_str()
    }

    fn framework_kind(&self) -> (r: FrameworkKind) {
        FrameworkKind::Binary
    }
}

/// Cargo Leptos strategy.
#[derive(Debug)]
pub struct CargoLeptosStrategy {
    pub name: String,
}

impl CargoLeptosStrategy {
    /// The strategy named `cargo-leptos`.
    pub fn new() -> (r: Self)
        ensures
            r.name@ == "cargo-leptos"@,
    {
        CargoLeptosStrategy { name: text("cargo-leptos") }
    }
}

impl FrameworkStrategy for CargoLeptosStrategy {
    open spec fn command_spec(&self, c: CommandContext) -> Result<CargoCommandView, Seq<char>> {
        Ok(fixed_command(CommandType::Cargo, seq!["leptos"@, "watch"@], true, c))
    }

    open spec fn name_spec(&self) -> Seq<char> {
        self.name@
    }

    open spec fn kind_spec(&self) -> FrameworkKind {
        FrameworkKind::Binary
    }

    fn build_command(&self, context: &CommandContext) -> (r: Result<CargoCommand, String>) {
        let mut args: Vec<String> = Vec::new();
        proof {
            assert(args.deep_view() =~= Seq::<Seq<char>>::empty());
        }
        push_string(&mut args, text("leptos"));
        push_string(&mut args, text("watch"));
        push_package(&mut args, &context.package_name);
        let cmd = CargoCommand::new(args);
        proof {
            assert(cmd@.args =~= seq!["leptos"@, "watch"@] + if true {
                package_args(opt_view(context.package_name))
            } else {
                Seq::<Seq<char>>::empty()
            });
        }
        Ok(finish(cmd, &context.working_dir))
    }

    fn name(&self) -> (r: &str) {
        self.name.as_str()
    }

    fn framework_kind(&self) -> (r: FrameworkKind) {
        FrameworkKind::Binary
    }
}

/// Cargo Shuttle strategy.
#[derive(Debug)]
pub struct CargoShuttleStrategy {
    pub name: String,
}

impl CargoShuttleStrategy {
    /// The strategy named `cargo-shuttle`.
    pub fn new() -> (r: Self)
        ensures
            r.name@ == "cargo-shuttle"@,
    {
        CargoShuttleStrategy { name: text("cargo-shuttle") }
    }
}

impl FrameworkStrategy for CargoShuttleStrategy {
    open spec fn command_spec(&self, c: CommandContext) -> Result<CargoCommandView, Seq<char>> {
        Ok(fixed_command(CommandType::Cargo, seq!["shuttle"@, "run"@], false, c))
    }

    open spec fn name_spec(&self) -> Seq<char> {
        self.name@
    }

    open spec fn kind_spec(&self) -> FrameworkKind {
        FrameworkKind::Binary
    }

    fn build_command(&self, context: &CommandContext) -> (r: Result<CargoCommand, String>) {
        let mut args: Vec<String> = Vec::new();
        proof {
            assert(args.deep_view() =~= Seq::<Seq<char>>::empty());
        }
        push_string(&mut args, text("shuttle"));
        push_string(&mut args, text("run"));
        let cmd = CargoCommand::new(args);
        proof {
            assert(cmd@.args =~= seq!["shuttle"@, "run"@] + if false {
                package_args(opt_view(context.package_name))
            } else {
                Seq::<Seq<char>>::empty()
            });
        }
        Ok(finish(cmd, &context.working_dir))
    }

    fn name(&self) -> (r: &str) {
        self.name.as_str()
    }

    fn framework_kind(&self) -> (r: FrameworkKind) {
        FrameworkKind::Binary
    }
}

/// Dioxus CLI `dx serve` strategy.
#[derive(Debug)]
pub struct DxServeStrategy {
    pub name: String,
}

impl DxServeStrategy {
    /// The strategy named `dx-serve`.
    pub fn new() -> (r: Self)
        ensures
            r.name@ == "dx-serve"@,
    {
        DxServeStrategy { name: text("dx-serve") }
    }
}

impl FrameworkStrategy for DxServeStrategy {
    open spec fn command_spec(&self, c: CommandContext) -> Result<CargoCommandView, Seq<char>> {
        Ok(fixed_command(CommandType::Shell, seq!["dx"@, "serve"@], false, c))
    }

    open spec fn name_spec(&self) -> Seq<char> {
        self.name@
    }

    open spec fn kind_spec(&self) -> FrameworkKind {
        FrameworkKind::Binary
    }

    fn build_command(&self, context: &CommandContext) -> (r: Result<CargoCommand, String>) {
        let mut args: Vec<String> = Vec::new();
        proof {
            assert(args.deep_view() =~= Seq::<Seq<char>>::empty());
        }
        push_string(&mut args, text("serve"));
        let cmd = CargoCommand::new_shell(text("dx"), args);
        proof {
            assert(cmd@.args =~= seq!["dx"@, "serve"@] + if false {
                package_args(opt_view(context.package_name))
            } else {
                Seq::<Seq<char>>::empty()
            });
        }
        Ok(finish(cmd, &context.working_dir))
    }

    fn name(&self) -> (r: &str) {
        self.name.as_str()
    }

    fn framework_kind(&self) -> (r: FrameworkKind) {
        FrameworkKind::Binary
    }
}

// ---------------------------------------------------------------------------
// Single files: rustc and cargo script.

/// `name` joined to the directory `dir` as a path.
pub open spec fn path_join(dir: Seq<char>, name: Seq<char>) -> Seq<char> {
    if dir.len() == 0 {
        name
    } else if is_suffix("/"@, dir) {
        dir + name
    } else {
        dir + "/"@ + name
    }
}

fn join_path(dir: &str, name: &str) -> (r: String)
    ensures
        r@ == path_join(dir@, name@),
{
    if dir.unicode_len() == 0 {
        text(name)
    } else if ends_with(dir, "/") {
        concat2(dir, name)
    } else {
        concat3(dir, "/", name)
    }
}

/// `sh -c <line>`.
pub open spec fn shell_run(line: Seq<char>, c: CommandContext) -> CargoCommandView {
    in_dir(plain_command(CommandType::Shell, seq!["sh"@, "-c"@, line]), opt_view(c.working_dir))
}

fn sh_command(line: String, dir: &Option<String>) -> (r: CargoCommand)
    ensures
        r@ == in_dir(plain_command(CommandType::Shell, seq!["sh"@, "-c"@, line@]), opt_view(*dir)),
{
    let mut args: Vec<String> = Vec::new();
    push_string(&mut args, text("-c"));
    push_string(&mut args, line);
    let cmd = CargoCommand::new_shell(text("sh"), args);
    assert(cmd@.args =~= seq!["sh"@, "-c"@, line@]);
    finish(cmd, dir)
}

/// Compile a file with rustc into the temporary directory and run it.
pub open spec fn rustc_run_spec(c: CommandContext) -> Result<CargoCommandView, Seq<char>> {
    match c.file_path {
        None => Err("No file path provided for rustc-run"@),
        Some(f) => match file_stem_spec(f@) {
            None => Err("Invalid file path"@),
            Some(stem) => match c.temp_dir {
                None => Err("No temporary directory provided for rustc-run"@),
                Some(t) => {
                    let out = path_join(t@, stem);
                    Ok(shell_run("rustc "@ + f@ + " -o "@ + out + " -O && "@ + out, c))
                },
            },
        },
    }
}

/// Rustc run strategy for standalone files.
#[derive(Debug)]
pub struct RustcRunStrategy {
    pub name: String,
}

impl RustcRunStrategy {
    /// The strategy named `rustc-run`.
    pub fn new() -> (r: Self)
        ensures
            r.name@ == "rustc-run"@,
    {
        RustcRunStrategy { name: text("rustc-run") }
    }
}

impl FrameworkStrategy for RustcRunStrategy {
    open spec fn command_spec(&self, c: CommandContext) -> Result<CargoCommandView, Seq<char>> {
        rustc_run_spec(c)
    }

    open spec fn name_spec(&self) -> Seq<char> {
        self.name@
    }

    open spec fn kind_spec(&self) -> FrameworkKind {
        FrameworkKind::Binary
    }

    fn build_command(&self, context: &CommandContext) -> (r: Result<CargoCommand, String>) {
        let f = match &context.file_path {
            Some(f) => f,
            None => return Err(text("No file path provided for rustc-run")),
        };
        let stem = match file_stem(f.as_str()) {
            Some(s) => s,
            None => return Err(text("Invalid file path")),
        };
        let t = match &context.temp_dir {
            Some(t) => t,
            None => return Err(text("No temporary directory provided for rustc-run")),
        };
        let out = join_path(t.as_str(), stem.as_str());
        let mut line = concat3("rustc ", f.as_str(), " -o ");
        line.append(out.as_str());
        line.append(" -O && ");
        line.append(out.as_str());
        Ok(sh_command(line, &context.working_dir))
    }

    fn name(&self) -> (r: &str) {
        self.name.as_str()
    }

    fn framework_kind(&self) -> (r: FrameworkKind) {
        FrameworkKind::Binary
    }
}

/// Compile a file's tests with rustc into the temporary directory and run
/// them, selecting one test when the runnable is a test.
pub open spec fn rustc_test_spec(c: CommandContext) -> Result<CargoCommandView, Seq<char>> {
    match c.file_path {
        None => Err("No file path provided for rustc-test"@),
        Some(f) => match file_stem_spec(f@) {
            None => Err("Invalid file path"@),
            Some(stem) => match c.temp_dir {
                None => Err("No temporary directory provided for rustc-test"@),
                Some(t) => {
                    let out = path_join(t@, stem + "_test"@);
                    let compile = "rustc --test "@ + f@ + " -o "@ + out + " && "@ + out;
                    Ok(shell_run(match c.runnable_kind {
                        RunnableKind::Test { test_name, .. } => compile + " "@ + match c.mod_path {
                            Some(m) => qualified(m@, test_name@),
                            None => test_name@,
                        } + " --exact"@,
                        _ => compile,
                    }, c))
                },
            },
        },
    }
}

/// Rustc test strategy for standalone files with tests.
#[derive(Debug)]
pub struct RustcTestStrategy {
    pub name: String,
}

impl RustcTestStrategy {
    /// The strategy named `rustc-test`.
    pub fn new() -> (r: Self)
        ensures
            r.name@ == "rustc-test"@,
    {
        RustcTestStrategy { name: text("rustc-test") }
    }
}

impl FrameworkStrategy for RustcTestStrategy {
    open spec fn command_spec(&self, c: CommandContext) -> Result<CargoCommandView, Seq<char>> {
        rustc_test_spec(c)
    }

    open spec fn name_spec(&self) -> Seq<char> {
        self.name@
    }

    open spec fn kind_spec(&self) -> FrameworkKind {
        FrameworkKind::Test
    }

    fn build_command(&self, context: &CommandContext) -> (r: Result<CargoCommand, String>) {
        let f = match &context.file_path {
            Some(f) => f,
            None => return Err(text("No file path provided for rustc-test")),
        };
        let stem = match file_stem(f.as_str()) {
            Some(s) => s,
            None => return Err(text("Invalid file path")),
        };
        let t = match &context.temp_dir {
            Some(t) => t,
            None => return Err(text("No temporary directory provided for rustc-test")),
        };
        let name = concat2(stem.as_str(), "_test");
        let out = join_path(t.as_str(), name.as_str());
        let mut line = concat3("rustc --test ", f.as_str(), " -o ");
        line.append(out.as_str());
        line.append(" && ");
        line.append(out.as_str());
        match &context.runnable_kind {
            RunnableKind::Test { test_name, .. } => {
                let filter = match &context.mod_path {
                    Some(m) => qualify(m.as_str(), test_name.as_str()),
                    None => test_name.clone(),
                };
                line.append(" ");
                line.append(filter.as_str());
                line.append(" --exact");
            },
            _ => {},
        }
        Ok(sh_command(line, &context.working_dir))
    }

    fn name(&self) -> (r: &str) {
        self.name.as_str()
    }

    fn framework_kind(&self) -> (r: FrameworkKind) {
        FrameworkKind::Test
    }
}

/// `cargo +nightly -Zscript <file>`.
pub open spec fn script_run_spec(c: CommandContext) -> Result<CargoCommandView, Seq<char>> {
    match c.file_path {
        None => Err("No file path provided"@),
        Some(f) => Ok(in_dir(plain_command(CommandType::Cargo, seq!["+nightly"@, "-Zscript"@, f@]), opt_view(c.working_dir))),
    }
}

/// Strategy for running single-file Rust scripts with cargo script.
#[derive(Debug)]
pub struct CargoScriptRunStrategy {
    pub name: String,
}

impl CargoScriptRunStrategy {
    /// The strategy named `cargo-script-run`.
    pub fn new() -> (r: Self)
        ensures
            r.name@ == "cargo-script-run"@,
    {
        CargoScriptRunStrategy { name: text("cargo-script-run") }
    }
}

impl FrameworkStrategy for CargoScriptRunStrategy {
    open spec fn command_spec(&self, c: CommandContext) -> Result<CargoCommandView, Seq<char>> {
        script_run_spec(c)
    }

    open spec fn name_spec(&self) -> Seq<char> {
        self.name@
    }

    open spec fn kind_spec(&self) -> FrameworkKind {
        FrameworkKind::Binary
    }

    fn build_command(&self, context: &CommandContext) -> (r: Result<CargoCommand, String>) {
        let f = match &context.file_path {
            Some(f) => f,
            None => return Err(text("No file path provided")),
        };
        let mut args: Vec<String> = Vec::new();
        push_string(&mut args, text("+nightly"));
        push_string(&mut args, text("-Zscript"));
        push_string(&mut args, f.clone());
        assert(args.deep_view() =~= seq!["+nightly"@, "-Zscript"@, f@]);
        Ok(finish(CargoCommand::new(args), &context.working_dir))
    }

    fn name(&self) -> (r: &str) {
        self.name.as_str()
    }

    fn framework_kind(&self) -> (r: FrameworkKind) {
        FrameworkKind::Binary
    }
}

/// The filter of a script's tests: one test, or a module's tests.
pub open spec fn script_test_tail(c: CommandContext) -> Seq<Seq<char>> {
    match c.runnable_kind {
        RunnableKind::Test { test_name, .. } => seq![module_test_path(opt_view(c.mod_path), test_name@), "--exact"@],
        RunnableKind::ModuleTests { module_name } => seq![module_name@],
        _ => Seq::empty(),
    }
}

/// `cargo +nightly -Zscript --test <file> -- <filter>`.
pub open spec fn script_test_spec(c: CommandContext) -> Result<CargoCommandView, Seq<char>> {
    match c.file_path {
        None => Err("No file path provided"@),
        Some(f) => Ok(in_dir(plain_command(
            CommandType::Cargo,
            seq!["+nightly"@, "-Zscript"@, "--test"@, f@, "--"@] + script_test_tail(c),
        ), opt_view(c.working_dir))),
    }
}

/// Strategy for testing single-file Rust scripts with cargo script.
#[derive(Debug)]
pub struct CargoScriptTestStrategy {
    pub name: String,
}

impl CargoScriptTestStrategy {
    /// The strategy named `cargo-script-test`.
    pub fn new() -> (r: Self)
        ensures
            r.name@ == "cargo-script-test"@,
    {
        CargoScriptTestStrategy { name: text("cargo-script-test") }
    }
}

impl FrameworkStrategy for CargoScriptTestStrategy {
    open spec fn command_spec(&self, c: CommandContext) -> Result<CargoCommandView, Seq<char>> {
        script_test_spec(c)
    }

    open spec fn name_spec(&self) -> Seq<char> {
        self.name@
    }

    open spec fn kind_spec(&self) -> FrameworkKind {
        FrameworkKind::Test
    }

    fn build_command(&self, context: &CommandContext) -> (r: Result<CargoCommand, String>) {
        let f = match &context.file_path {
            Some(f) => f,
            None => return Err(text("No file path provided")),
        };
        let mut args: Vec<String> = Vec::new();
        push_string(&mut args, text("+nightly"));
        push_string(&mut args, text("-Zscript"));
        push_string(&mut args, text("--test"));
        push_string(&mut args, f.clone());
        push_string(&mut args, text("--"));
        let ghost head = args.deep_view();
        match &context.runnable_kind {
            RunnableKind::Test { test_name, .. } => {
                let filter = match &context.mod_path {
                    Some(m) => if m.unicode_len() > 0 {
                        qualify(m.as_str(), test_name.as_str())
                    } else {
                        test_name.clone()
                    },
                    None => test_name.clone(),
                };
                push_string(&mut args, filter);
                push_string(&mut args, text("--exact"));
            },
            RunnableKind::ModuleTests { module_name } => push_string(&mut args, module_name.clone()),
            _ => {},
        }
        assert(args.deep_view() =~= seq!["+nightly"@, "-Zscript"@, "--test"@, f@, "--"@] + script_test_tail(*context));
        Ok(finish(CargoCommand::new(args), &context.working_dir))
    }

    fn name(&self) -> (r: &str) {
        self.name.as_str()
    }

    fn framework_kind(&self) -> (r: FrameworkKind) {
        FrameworkKind::Test
    }
}

} // verus!
