//! Resolution of a command: the layers that match a context are merged from
//! least to most specific, the merged configuration names a strategy, and
//! the strategy's command receives the configured arguments and variables.
use vstd::prelude::*;
use crate::bazel::BazelTarget;
use crate::command::cargo_command::{CargoCommand, CargoCommandView};
use crate::config::v2::layer::{ConfigLayer, LayerConfig, LayerView, apply_layer, empty_layer};
use crate::config::v2::registry::{StrategyRegistry, lookup};
use crate::config::v2::scope::ScopeContext;
use crate::config::v2::strategy::{CommandContext, FrameworkKind, FrameworkStrategy};
use crate::strings::concat2;
use crate::types::{FileType, RunnableKind, push_string, extend_strings, clone_strings};

verus! {

/// What the file system says about the context's file: how the file is
/// built, the directory of the project it belongs to, the temporary
/// directory, and the rules of the BUILD file that governs it.
#[derive(Debug)]
pub struct FileFacts {
    pub file_type: FileType,
    pub working_dir: Option<String>,
    pub temp_dir: Option<String>,
    pub build_targets: Option<Vec<BazelTarget>>,
}

impl FileFacts {
    /// Nothing known: a file of a cargo project, no project directory, no
    /// temporary directory and no BUILD file.
    pub open spec fn unknown() -> FileFacts {
        FileFacts { file_type: FileType::CargoProject, working_dir: None, temp_dir: None, build_targets: None }
    }

    /// Facts that know nothing.
    pub fn none() -> (r: FileFacts)
        ensures
            r == FileFacts::unknown(),
    {
        FileFacts { file_type: FileType::CargoProject, working_dir: None, temp_dir: None, build_targets: None }
    }
}

/// The configurations of the layers of rank `r` that match the context, in order.
pub open spec fn rank_filter(ls: Seq<ConfigLayer>, ctx: ScopeContext, r: u32) -> Seq<LayerView>
    decreases ls.len(),
{
    if ls.len() == 0 {
        Seq::empty()
    } else {
        let rest = rank_filter(ls.drop_last(), ctx, r);
        if ls.last().scope.matches_spec(ctx) && ls.last().scope.rank() == r {
            rest.push(ls.last().config@)
        } else {
            rest
        }
    }
}

/// The configurations of the matching layers of rank at most `r`, ordered by
/// rank and, within a rank, as the layers are listed.
pub open spec fn ordered_layers(ls: Seq<ConfigLayer>, ctx: ScopeContext, r: int) -> Seq<LayerView>
    decreases r + 1,
{
    if r < 0 {
        Seq::empty()
    } else {
        ordered_layers(ls, ctx, r - 1) + rank_filter(ls, ctx, r as u32)
    }
}

/// Layers applied in turn on top of `base`.
pub open spec fn fold_layers(base: LayerView, ls: Seq<LayerView>) -> LayerView
    decreases ls.len(),
{
    if ls.len() == 0 {
        base
    } else {
        apply_layer(fold_layers(base, ls.drop_last()), ls.last())
    }
}

/// The configuration in force for a context: every matching layer applied,
/// least specific first.
pub open spec fn merged_config(ls: Seq<ConfigLayer>, ctx: ScopeContext) -> LayerView {
    fold_layers(empty_layer(), ordered_layers(ls, ctx, 6))
}

/// The strategy name the configuration gives for a framework kind.
pub open spec fn framework_name(config: LayerView, kind: FrameworkKind) -> Option<Seq<char>> {
    match kind {
        FrameworkKind::Test => config.frameworks.test,
        FrameworkKind::Binary => config.frameworks.binary,
        FrameworkKind::Benchmark => config.frameworks.benchmark,
        FrameworkKind::DocTest => config.frameworks.doctest,
        FrameworkKind::Build => config.frameworks.build,
    }
}

/// The strategy for a context: the cargo script strategies for tests and
/// binaries of a single-file script, otherwise the configured one.
pub open spec fn strategy_name(config: LayerView, kind: FrameworkKind, ctx: ScopeContext, file_type: FileType) -> Option<Seq<char>> {
    if ctx.file_path is Some && file_type == FileType::SingleFileScript {
        match kind {
            FrameworkKind::Test => Some("cargo-script-test"@),
            FrameworkKind::Binary => Some("cargo-script-run"@),
            _ => framework_name(config, kind),
        }
    } else {
        framework_name(config, kind)
    }
}

/// The name of a framework kind in messages.
pub open spec fn kind_label(kind: FrameworkKind) -> Seq<char> {
    match kind {
        FrameworkKind::Test => "Test"@,
        FrameworkKind::Binary => "Binary"@,
        FrameworkKind::Benchmark => "Benchmark"@,
        FrameworkKind::DocTest => "DocTest"@,
        FrameworkKind::Build => "Build"@,
    }
}

/// The configured extra arguments: those for every command, then those for the kind.
pub open spec fn extra_args(config: LayerView, kind: FrameworkKind) -> Seq<Seq<char>> {
    config.args.all.unwrap_or(Seq::empty()) + match kind {
        FrameworkKind::Test => config.args.test.unwrap_or(Seq::empty()),
        FrameworkKind::Binary => config.args.binary.unwrap_or(Seq::empty()),
        FrameworkKind::Benchmark => config.args.benchmark.unwrap_or(Seq::empty()),
        FrameworkKind::Build => config.args.build.unwrap_or(Seq::empty()),
        FrameworkKind::DocTest => Seq::empty(),
    }
}

/// Position of the first `--`, or -1.
pub open spec fn separator_position(args: Seq<Seq<char>>) -> int
    decreases args.len(),
{
    if args.len() == 0 {
        -1
    } else {
        let p = separator_position(args.drop_last());
        if p >= 0 {
            p
        } else if args.last() == "--"@ {
            args.len() - 1
        } else {
            -1
        }
    }
}

/// `extra` inserted before the first `--`, or appended when there is none.
pub open spec fn with_extra(args: Seq<Seq<char>>, extra: Seq<Seq<char>>) -> Seq<Seq<char>> {
    let p = separator_position(args);
    if p >= 0 {
        args.subrange(0, p) + extra + args.subrange(p, args.len() as int)
    } else {
        args + extra
    }
}

/// For a test, the arguments for the test binary after a `--` (added when missing).
pub open spec fn with_test_binary(args: Seq<Seq<char>>, config: LayerView, kind: FrameworkKind) -> Seq<Seq<char>> {
    if kind == FrameworkKind::Test && config.args.test_binary is Some {
        (if args.contains("--"@) {
            args
        } else {
            args.push("--"@)
        }) + config.args.test_binary->0
    } else {
        args
    }
}

/// A strategy's command with the configuration's arguments and variables added.
pub open spec fn configured(c: CargoCommandView, config: LayerView, kind: FrameworkKind) -> CargoCommandView {
    CargoCommandView {
        args: with_test_binary(with_extra(c.args, extra_args(config, kind)), config, kind),
        env: c.env + config.env,
        ..c
    }
}

/// The context a strategy receives for a scope context.
pub open spec fn command_context_for(ctx: ScopeContext, kind: RunnableKind, facts: FileFacts) -> CommandContext {
    CommandContext {
        file_path: ctx.file_path,
        crate_name: ctx.crate_name,
        package_name: ctx.crate_name,
        mod_path: ctx.mod_path,
        function_name: ctx.function_name,
        runnable_kind: kind,
        working_dir: if ctx.file_path is Some {
            facts.working_dir
        } else {
            None
        },
        temp_dir: facts.temp_dir,
        build_targets: facts.build_targets,
    }
}

/// The command (or the error) for a context, a runnable kind and the facts
/// about the file.
pub open spec fn resolve_spec(
    layers: Seq<ConfigLayer>,
    registry: Seq<crate::config::v2::registry::Strategy>,
    ctx: ScopeContext,
    kind: RunnableKind,
    facts: FileFacts,
) -> Result<CargoCommandView, Seq<char>> {
    let merged = merged_config(layers, ctx);
    let fk = FrameworkKind::of_runnable(kind);
    if merged.build_system is None {
        Err("No build system specified"@)
    } else {
        match strategy_name(merged, fk, ctx, facts.file_type) {
            None => Err("No framework strategy for "@ + kind_label(fk)),
            Some(name) => match lookup(registry, name) {
                None => Err("Unknown strategy: "@ + name),
                Some(st) => match st.command_spec(command_context_for(ctx, kind, facts)) {
                    Err(e) => Err(e),
                    Ok(c) => Ok(configured(c, merged, fk)),
                },
            },
        }
    }
}

/// Resolves configuration for command building.
pub struct ConfigResolver<'a> {
    pub layers: &'a [ConfigLayer],
    pub registry: &'a StrategyRegistry,
    pub linked_projects: &'a Option<Vec<String>>,
}

/// An exact copy of an optional string.
fn copy_opt(o: &Option<String>) -> (r: Option<String>)
    ensures
        r == *o,
{
    match o {
        Some(s) => Some(s.clone()),
        None => None,
    }
}

fn text(s: &str) -> (r: String)
    ensures
        r@ == s@,
{
    String::from_str(s)
}

/// Position of the first `--` in the arguments.
fn find_separator(args: &Vec<String>) -> (r: Option<usize>)
    ensures
        match r {
            Some(p) => p as int == separator_position(args.deep_view()) && p < args@.len(),
            None => separator_position(args.deep_view()) == -1,
        },
{
    let mut i: usize = 0;
    while i < args.len()
        invariant
            i <= args@.len(),
            separator_position(args.deep_view().subrange(0, i as int)) == -1,
        decreases args.len() - i,
    {
        let ghost sub = args.deep_view().subrange(0, i + 1);
        assert(sub.drop_last() =~= args.deep_view().subrange(0, i as int));
        if crate::strings::str_eq(args[i].as_str(), "--") {
            proof {
                lemma_separator_prefix(args.deep_view(), i as int);
            }
            return Some(i);
        }
        i = i + 1;
    }
    assert(args.deep_view().subrange(0, i as int) =~= args.deep_view());
    None
}

/// The first `--` found in a prefix is the first in the whole sequence.
proof fn lemma_separator_prefix(args: Seq<Seq<char>>, i: int)
    requires
        0 <= i < args.len(),
        separator_position(args.subrange(0, i)) == -1,
        args[i] == "--"@,
    ensures
        separator_position(args) == i,
    decreases args.len(),
{
    if i < args.len() - 1 {
        assert(args.drop_last().subrange(0, i) =~= args.subrange(0, i));
        assert(args.drop_last()[i] == args[i]);
        lemma_separator_prefix(args.drop_last(), i);
    } else {
        assert(args.drop_last() =~= args.subrange(0, i));
    }
}

proof fn lemma_separator_bounds(args: Seq<Seq<char>>)
    ensures
        -1 <= separator_position(args) < args.len(),
        separator_position(args) >= 0 ==> args[separator_position(args)] == "--"@,
        separator_position(args) < 0 ==> !args.contains("--"@),
    decreases args.len(),
{
    if args.len() > 0 {
        lemma_separator_bounds(args.drop_last());
        if separator_position(args) < 0 {
            assert forall|j: int| 0 <= j < args.len() implies args[j] != "--"@ by {
                if j < args.len() - 1 {
                    assert(args.drop_last()[j] == args[j]);
                }
            }
        }
    }
}

fn push_opt_args(v: &mut Vec<String>, o: &Option<Vec<String>>)
    ensures
        final(v).deep_view() == old(v).deep_view() + crate::types::opt_strings_view(*o).unwrap_or(Seq::empty()),
{
    match o {
        Some(a) => extend_strings(v, a),
        None => {
            assert(v.deep_view() + Seq::<Seq<char>>::empty() =~= v.deep_view());
        },
    }
}

/// The configured extra arguments for a kind of command.
fn collect_extra(config: &LayerConfig, kind: FrameworkKind) -> (r: Vec<String>)
    ensures
        r.deep_view() == extra_args(config@, kind),
{
    let mut v: Vec<String> = Vec::new();
    assert(v.deep_view() =~= Seq::<Seq<char>>::empty());
    push_opt_args(&mut v, &config.args.all);
    let ghost after_all = v.deep_view();
    match kind {
        FrameworkKind::Test => push_opt_args(&mut v, &config.args.test),
        FrameworkKind::Binary => push_opt_args(&mut v, &config.args.binary),
        FrameworkKind::Benchmark => push_opt_args(&mut v, &config.args.benchmark),
        FrameworkKind::Build => push_opt_args(&mut v, &config.args.build),
        FrameworkKind::DocTest => {
            assert(v.deep_view() + Seq::<Seq<char>>::empty() =~= v.deep_view());
        },
    }
    proof {
        assert(config@.args.all.unwrap_or(Seq::empty()) =~= after_all);
    }
    v
}

/// `extra` inserted before the first `--`, or appended when there is none.
pub(crate) fn insert_extra(args: &mut Vec<String>, extra: &Vec<String>)
    ensures
        final(args).deep_view() == with_extra(old(args).deep_view(), extra.deep_view()),
{
    let ghost args0 = args.deep_view();
    proof {
        lemma_separator_bounds(args0);
    }
    match find_separator(args) {
        Some(p) => {
            let mut out: Vec<String> = Vec::new();
            let mut i: usize = 0;
            while i < p
                invariant
                    i <= p < args@.len(),
                    args.deep_view() == args0,
                    out.deep_view() == args0.subrange(0, i as int),
                decreases p - i,
            {
                push_string(&mut out, args[i].clone());
                assert(out.deep_view() =~= args0.subrange(0, i + 1));
                i = i + 1;
            }
            extend_strings(&mut out, extra);
            let mut j: usize = p;
            while j < args.len()
                invariant
                    p <= j <= args@.len(),
                    args.deep_view() == args0,
                    out.deep_view() == args0.subrange(0, p as int) + extra.deep_view() + args0.subrange(p as int, j as int),
                decreases args.len() - j,
            {
                push_string(&mut out, args[j].clone());
                assert(out.deep_view() =~= args0.subrange(0, p as int) + extra.deep_view() + args0.subrange(p as int, j + 1));
                j = j + 1;
            }
            *args = out;
        },
        None => {
            extend_strings(args, extra);
        },
    }
    assert(args.deep_view() =~= with_extra(args0, extra.deep_view()));
}

/// The arguments for a test binary, after a `--` that is added when missing.
pub open spec fn with_binary_args(args: Seq<Seq<char>>, more: Seq<Seq<char>>) -> Seq<Seq<char>> {
    (if args.contains("--"@) {
        args
    } else {
        args.push("--"@)
    }) + more
}

/// Appends arguments for the test binary after a `--`.
pub(crate) fn append_binary_args(args: &mut Vec<String>, more: &Vec<String>)
    ensures
        final(args).deep_view() == with_binary_args(old(args).deep_view(), more.deep_view()),
{
    if !crate::command::cargo_command::args_contain(args, "--") {
        push_string(args, text("--"));
    }
    extend_strings(args, more);
}

/// Adds the configured arguments: the extra ones before the first `--` (or
/// at the end), and for tests the test binary's arguments after a `--`.
fn apply_args(command: &mut CargoCommand, config: &LayerConfig, kind: FrameworkKind)
    ensures
        final(command)@ == (CargoCommandView {
            args: with_test_binary(with_extra(old(command)@.args, extra_args(config@, kind)), config@, kind),
            ..old(command)@
        }),
{
    let extra = collect_extra(config, kind);
    insert_extra(&mut command.args, &extra);
    if kind == FrameworkKind::Test {
        match &config.args.test_binary {
            Some(tb) => append_binary_args(&mut command.args, tb),
            None => {},
        }
    }
}

/// Appends the configured environment variables.
fn apply_env(command: &mut CargoCommand, config: &LayerConfig)
    ensures
        final(command)@ == (CargoCommandView { env: old(command)@.env + config@.env, ..old(command)@ }),
{
    let ghost env0 = command.env.deep_view();
    let mut i: usize = 0;
    while i < config.env.vars.len()
        invariant
            i <= config.env.vars@.len(),
            command.env.deep_view() == env0 + config@.env.subrange(0, i as int),
            command.args == old(command).args,
            command.command_type == old(command).command_type,
            command.working_dir == old(command).working_dir,
            command.test_filter == old(command).test_filter,
            env0 == old(command)@.env,
        decreases config.env.vars.len() - i,
    {
        let k = config.env.vars[i].0.clone();
        let v = config.env.vars[i].1.clone();
        let ghost before = command.env@;
        let ghost old_dv = command.env.deep_view();
        command.env.push((k, v));
        proof {
            assert forall|j: int| 0 <= j < command.env@.len() implies command.env.deep_view()[j] == old_dv.push((k@, v@))[j] by {
                if j < before.len() {
                    assert(command.env@[j] == before[j]);
                }
            }
            assert(command.env.deep_view() =~= old_dv.push((k@, v@)));
            assert(config@.env[i as int] == (k@, v@));
            assert(env0 + config@.env.subrange(0, i + 1) =~= (env0 + config@.env.subrange(0, i as int)).push(config@.env[i as int]));
        }
        i = i + 1;
    }
    assert(config@.env.subrange(0, i as int) =~= config@.env);
}

impl<'a> ConfigResolver<'a> {
    /// Create a new configuration resolver.
    pub fn new(
        layers: &'a [ConfigLayer],
        registry: &'a StrategyRegistry,
        linked_projects: &'a Option<Vec<String>>,
    ) -> (r: Self)
        ensures
            r.layers == layers,
            r.registry == registry,
            r.linked_projects == linked_projects,
    {
        ConfigResolver { layers, registry, linked_projects }
    }

    /// Merge the configurations of the layers that match the context, by
    /// increasing specificity and, within one specificity, in order.
    fn merge_layers(&self, ctx: &ScopeContext) -> (r: LayerConfig)
        ensures
            r@ == merged_config(self.layers@, *ctx),
    {
        let mut merged = LayerConfig::new();
        let ghost mut done: Seq<LayerView> = Seq::empty();
        let mut rank: u32 = 0;
        while rank <= 6
            invariant
                rank <= 7,
                done == ordered_layers(self.layers@, *ctx, rank - 1),
                merged@ == fold_layers(empty_layer(), done),
            decreases 7 - rank,
        {
            let ghost before = done;
            let mut i: usize = 0;
            while i < self.layers.len()
                invariant
                    i <= self.layers@.len(),
                    rank <= 6,
                    done == before + rank_filter(self.layers@.subrange(0, i as int), *ctx, rank),
                    merged@ == fold_layers(empty_layer(), done),
                decreases self.layers.len() - i,
            {
                let ghost sub = self.layers@.subrange(0, i + 1);
                assert(sub.drop_last() =~= self.layers@.subrange(0, i as int));
                assert(sub.last() == self.layers@[i as int]);
                if self.layers[i].matches(ctx) && self.layers[i].specificity() == rank {
                    merged.apply(&self.layers[i].config);
                    proof {
                        let x = self.layers@[i as int].config@;
                        assert((done.push(x)).drop_last() =~= done);
                        done = done.push(x);
                    }
                }
                i = i + 1;
            }
            assert(self.layers@.subrange(0, i as int) =~= self.layers@);
            rank = rank + 1;
        }
        merged
    }

    /// Resolve a command for a context whose file the caller knows nothing
    /// about (see [`ConfigResolver::resolve_command_with`]).
    pub fn resolve_command(&self, scope_context: &ScopeContext, runnable_kind: RunnableKind) -> (r: Result<CargoCommand, String>)
        ensures
            match r {
                Ok(c) => resolve_spec(self.layers@, self.registry@, *scope_context, runnable_kind, FileFacts::unknown())
                    == Ok::<CargoCommandView, Seq<char>>(c@),
                Err(e) => resolve_spec(self.layers@, self.registry@, *scope_context, runnable_kind, FileFacts::unknown())
                    == Err::<CargoCommandView, Seq<char>>(e@),
            },
    {
        self.resolve_command_with(scope_context, runnable_kind, FileFacts::none())
    }

    /// Resolve a command for the given scope context, runnable kind and facts
    /// about the context's file.
    pub fn resolve_command_with(
        &self,
        scope_context: &ScopeContext,
        runnable_kind: RunnableKind,
        facts: FileFacts,
    ) -> (r: Result<CargoCommand, String>)
        ensures
            match r {
                Ok(c) => resolve_spec(self.layers@, self.registry@, *scope_context, runnable_kind, facts)
                    == Ok::<CargoCommandView, Seq<char>>(c@),
                Err(e) => resolve_spec(self.layers@, self.registry@, *scope_context, runnable_kind, facts)
                    == Err::<CargoCommandView, Seq<char>>(e@),
            },
    {
        let merged = self.merge_layers(scope_context);
        if merged.build_system.is_none() {
            return Err(text("No build system specified"));
        }
        let fk = FrameworkKind::from_runnable_kind(&runnable_kind);
        let script = scope_context.file_path.is_some() && facts.file_type == FileType::SingleFileScript;
        let name: Option<String> = if script && fk == FrameworkKind::Test {
            Some(text("cargo-script-test"))
        } else if script && fk == FrameworkKind::Binary {
            Some(text("cargo-script-run"))
        } else {
            match fk {
                FrameworkKind::Test => copy_opt(&merged.frameworks.test),
                FrameworkKind::Binary => copy_opt(&merged.frameworks.binary),
                FrameworkKind::Benchmark => copy_opt(&merged.frameworks.benchmark),
                FrameworkKind::DocTest => copy_opt(&merged.frameworks.doctest),
                FrameworkKind::Build => copy_opt(&merged.frameworks.build),
            }
        };
        assert(crate::types::opt_view(name) == strategy_name(merged@, fk, *scope_context, facts.file_type));
        let name = match name {
            Some(n) => n,
            None => {
                let label = match fk {
                    FrameworkKind::Test => "Test",
                    FrameworkKind::Binary => "Binary",
                    FrameworkKind::Benchmark => "Benchmark",
                    FrameworkKind::DocTest => "DocTest",
                    FrameworkKind::Build => "Build",
                };
                return Err(concat2("No framework strategy for ", label));
            },
        };
        let strategy = match self.registry.get(name.as_str()) {
            Some(s) => s,
            None => return Err(concat2("Unknown strategy: ", name.as_str())),
        };
        let ghost ffacts = facts;
        let working_dir = if scope_context.file_path.is_some() {
            facts.working_dir
        } else {
            None
        };
        let context = CommandContext {
            file_path: copy_opt(&scope_context.file_path),
            crate_name: copy_opt(&scope_context.crate_name),
            package_name: copy_opt(&scope_context.crate_name),
            mod_path: copy_opt(&scope_context.mod_path),
            function_name: copy_opt(&scope_context.function_name),
            runnable_kind,
            working_dir,
            temp_dir: facts.temp_dir,
            build_targets: facts.build_targets,
        };
        assert(context == command_context_for(*scope_context, runnable_kind, ffacts));
        let mut command = match strategy.build_command(&context) {
            Ok(c) => c,
            Err(e) => return Err(e),
        };
        apply_args(&mut command, &merged, fk);
        apply_env(&mut command, &merged);
        Ok(command)
    }

    /// Resolve a test command for a function of a module of a crate.
    pub fn resolve_test_command(&self, crate_name: &str, mod_path: &str, function_name: &str) -> (r: Result<CargoCommand, String>)
        ensures
            exists|ctx: ScopeContext, kind: RunnableKind|
                #[trigger] test_request(ctx, kind, crate_name@, mod_path@, function_name@)
                    && outcome(r, resolve_spec(self.layers@, self.registry@, ctx, kind, FileFacts::unknown())),
    {
        let context = ScopeContext::new().with_crate(text(crate_name)).with_module(text(mod_path)).with_function(
            text(function_name),
        );
        let kind = RunnableKind::Test { test_name: text(function_name), is_async: false };
        let ghost k = kind;
        let r = self.resolve_command(&context, kind);
        assert(test_request(context, k, crate_name@, mod_path@, function_name@));
        r
    }

    /// Resolve the command that runs a binary file.
    pub fn resolve_binary_command(&self, file_path: &str) -> (r: Result<CargoCommand, String>)
        ensures
            exists|ctx: ScopeContext|
                #[trigger] binary_request(ctx, file_path@)
                    && outcome(r, resolve_spec(self.layers@, self.registry@, ctx, RunnableKind::Binary { bin_name: None }, FileFacts::unknown())),
    {
        let context = ScopeContext::new().with_file(text(file_path));
        let r = self.resolve_command(&context, RunnableKind::Binary { bin_name: None });
        assert(binary_request(context, file_path@));
        r
    }
}

/// The context and kind of a test request: a function of a module of a crate.
pub open spec fn test_request(ctx: ScopeContext, kind: RunnableKind, crate_name: Seq<char>, mod_path: Seq<char>, function_name: Seq<char>) -> bool {
    &&& crate::types::opt_view(ctx.crate_name) == Some(crate_name)
    &&& crate::types::opt_view(ctx.mod_path) == Some(mod_path)
    &&& crate::types::opt_view(ctx.function_name) == Some(function_name)
    &&& ctx.file_path is None && ctx.ty_name is None && ctx.method_name is None && ctx.scope_kind is None
    &&& kind matches RunnableKind::Test { test_name, is_async } && test_name@ == function_name && !is_async
}

/// The context of a request to run a binary file.
pub open spec fn binary_request(ctx: ScopeContext, file_path: Seq<char>) -> bool {
    &&& crate::types::opt_view(ctx.file_path) == Some(file_path)
    &&& ctx.crate_name is None && ctx.mod_path is None && ctx.function_name is None
    &&& ctx.ty_name is None && ctx.method_name is None && ctx.scope_kind is None
}

/// The exec result is the specified one: the same command or the same message.
pub open spec fn outcome(r: Result<CargoCommand, String>, s: Result<CargoCommandView, Seq<char>>) -> bool {
    match r {
        Ok(c) => s == Ok::<CargoCommandView, Seq<char>>(c@),
        Err(e) => s == Err::<CargoCommandView, Seq<char>>(e@),
    }
}

} // verus!
