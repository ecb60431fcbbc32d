//! Configuration layers and how a more specific layer is put on top of a
//! less specific one: names are replaced, argument lists are extended and
//! environment variables are set.
use vstd::prelude::*;
use crate::build_system::BuildSystem;
use crate::config::v2::scope::{Scope, ScopeContext};
use crate::env::{EnvView, env_insert, env_insert_all, env_set, find_key, lemma_key_position};
use crate::types::{opt_view, clone_opt, clone_strings, extend_strings, opt_strings_view};

verus! {

/// A single configuration layer: a scope and what it sets.
#[derive(Debug, Clone)]
pub struct ConfigLayer {
    pub scope: Scope,
    pub config: LayerConfig,
}

/// What one layer sets.
#[derive(Debug, Clone, Default)]
pub struct LayerConfig {
    pub build_system: Option<BuildSystem>,
    pub frameworks: FrameworkOverrides,
    pub args: ArgsConfig,
    pub env: EnvConfig,
}

/// Framework strategy names, per kind of command.
#[derive(Debug, Clone, Default)]
pub struct FrameworkOverrides {
    pub test: Option<String>,
    pub binary: Option<String>,
    pub benchmark: Option<String>,
    pub doctest: Option<String>,
    pub build: Option<String>,
}

/// Extra arguments, per kind of command; `test_binary` goes after `--`.
#[derive(Debug, Clone, Default)]
pub struct ArgsConfig {
    pub all: Option<Vec<String>>,
    pub test: Option<Vec<String>>,
    pub binary: Option<Vec<String>>,
    pub benchmark: Option<Vec<String>>,
    pub build: Option<Vec<String>>,
    pub test_binary: Option<Vec<String>>,
}

/// Environment variables to set, one entry per key.
#[derive(Debug, Clone, Default)]
pub struct EnvConfig {
    pub vars: Vec<(String, String)>,
}

/// The strategy names of a layer.
pub struct FrameworksView {
    pub test: Option<Seq<char>>,
    pub binary: Option<Seq<char>>,
    pub benchmark: Option<Seq<char>>,
    pub doctest: Option<Seq<char>>,
    pub build: Option<Seq<char>>,
}

/// The argument lists of a layer.
pub struct ArgsView {
    pub all: Option<Seq<Seq<char>>>,
    pub test: Option<Seq<Seq<char>>>,
    pub binary: Option<Seq<Seq<char>>>,
    pub benchmark: Option<Seq<Seq<char>>>,
    pub build: Option<Seq<Seq<char>>>,
    pub test_binary: Option<Seq<Seq<char>>>,
}

/// Everything a layer sets, as values.
pub struct LayerView {
    pub build_system: Option<BuildSystem>,
    pub frameworks: FrameworksView,
    pub args: ArgsView,
    pub env: EnvView,
}

impl View for FrameworkOverrides {
    type V = FrameworksView;

    open spec fn view(&self) -> FrameworksView {
        FrameworksView {
            test: opt_view(self.test),
            binary: opt_view(self.binary),
            benchmark: opt_view(self.benchmark),
            doctest: opt_view(self.doctest),
            build: opt_view(self.build),
        }
    }
}

impl View for ArgsConfig {
    type V = ArgsView;

    open spec fn view(&self) -> ArgsView {
        ArgsView {
            all: opt_strings_view(self.all),
            test: opt_strings_view(self.test),
            binary: opt_strings_view(self.binary),
            benchmark: opt_strings_view(self.benchmark),
            build: opt_strings_view(self.build),
            test_binary: opt_strings_view(self.test_binary),
        }
    }
}

impl View for EnvConfig {
    type V = EnvView;

    open spec fn view(&self) -> EnvView {
        self.vars.deep_view()
    }
}

impl View for LayerConfig {
    type V = LayerView;

    open spec fn view(&self) -> LayerView {
        LayerView {
            build_system: self.build_system,
            frameworks: self.frameworks@,
            args: self.args@,
            env: self.env@,
        }
    }
}

/// `top` when it is set, otherwise `base`.
pub open spec fn override_opt<T>(base: Option<T>, top: Option<T>) -> Option<T> {
    if top is Some {
        top
    } else {
        base
    }
}

/// `base` extended by `more` when `more` is set (a missing `base` counts as empty).
pub open spec fn extend_opt(base: Option<Seq<Seq<char>>>, more: Option<Seq<Seq<char>>>) -> Option<Seq<Seq<char>>> {
    match more {
        Some(m) => Some(base.unwrap_or(Seq::empty()) + m),
        None => base,
    }
}

/// `more` followed by `base` when `more` is set (a missing `base` counts as empty).
pub open spec fn prepend_opt(base: Option<Seq<Seq<char>>>, more: Option<Seq<Seq<char>>>) -> Option<Seq<Seq<char>>> {
    match more {
        Some(m) => Some(m + base.unwrap_or(Seq::empty())),
        None => base,
    }
}

/// Strategy names of `base` overridden by those `top` sets.
pub open spec fn apply_frameworks(base: FrameworksView, top: FrameworksView) -> FrameworksView {
    FrameworksView {
        test: override_opt(base.test, top.test),
        binary: override_opt(base.binary, top.binary),
        benchmark: override_opt(base.benchmark, top.benchmark),
        doctest: override_opt(base.doctest, top.doctest),
        build: override_opt(base.build, top.build),
    }
}

/// Argument lists of `base` extended by those of `top`; the arguments for
/// test binaries of `top` come first.
pub open spec fn apply_args(base: ArgsView, top: ArgsView) -> ArgsView {
    ArgsView {
        all: extend_opt(base.all, top.all),
        test: extend_opt(base.test, top.test),
        binary: extend_opt(base.binary, top.binary),
        benchmark: extend_opt(base.benchmark, top.benchmark),
        build: extend_opt(base.build, top.build),
        test_binary: prepend_opt(base.test_binary, top.test_binary),
    }
}

/// Layer `top` put on top of `base`.
pub open spec fn apply_layer(base: LayerView, top: LayerView) -> LayerView {
    LayerView {
        build_system: override_opt(base.build_system, top.build_system),
        frameworks: apply_frameworks(base.frameworks, top.frameworks),
        args: apply_args(base.args, top.args),
        env: env_insert_all(base.env, top.env),
    }
}

/// The layer that sets nothing.
pub open spec fn empty_layer() -> LayerView {
    LayerView {
        build_system: None,
        frameworks: FrameworksView { test: None, binary: None, benchmark: None, doctest: None, build: None },
        args: ArgsView { all: None, test: None, binary: None, benchmark: None, build: None, test_binary: None },
        env: Seq::empty(),
    }
}

impl ConfigLayer {
    /// Create a new configuration layer.
    pub fn new(scope: Scope, config: LayerConfig) -> (r: Self)
        ensures
            r.scope == scope,
            r.config == config,
    {
        ConfigLayer { scope, config }
    }

    /// Check if this layer matches the given context.
    pub fn matches(&self, context: &ScopeContext) -> (r: bool)
        ensures
            r == self.scope.matches_spec(*context),
    {
        self.scope.matches(context)
    }

    /// Get the specificity of this layer.
    pub fn specificity(&self) -> (r: u32)
        ensures
            r == self.scope.rank(),
    {
        self.scope.specificity()
    }
}

/// A copy of an optional list of arguments.
fn copy_args(o: &Option<Vec<String>>) -> (r: Option<Vec<String>>)
    ensures
        opt_strings_view(r) == opt_strings_view(*o),
{
    match o {
        Some(v) => Some(clone_strings(v)),
        None => None,
    }
}

/// `base` extended by `more`, as [`extend_opt`] says.
fn extended(base: &Option<Vec<String>>, more: &Option<Vec<String>>) -> (r: Option<Vec<String>>)
    ensures
        opt_strings_view(r) == extend_opt(opt_strings_view(*base), opt_strings_view(*more)),
{
    match more {
        Some(m) => {
            let mut v = match base {
                Some(b) => clone_strings(b),
                None => Vec::new(),
            };
            proof {
                assert(base is None ==> v.deep_view() =~= Seq::<Seq<char>>::empty());
            }
            extend_strings(&mut v, m);
            Some(v)
        },
        None => copy_args(base),
    }
}

/// `more` followed by `base`, as [`prepend_opt`] says.
fn prepended(base: &Option<Vec<String>>, more: &Option<Vec<String>>) -> (r: Option<Vec<String>>)
    ensures
        opt_strings_view(r) == prepend_opt(opt_strings_view(*base), opt_strings_view(*more)),
{
    match more {
        Some(m) => {
            let mut v = clone_strings(m);
            match base {
                Some(b) => extend_strings(&mut v, b),
                None => {
                    assert(v.deep_view() + Seq::<Seq<char>>::empty() =~= v.deep_view());
                },
            }
            Some(v)
        },
        None => copy_args(base),
    }
}

impl FrameworkOverrides {
    /// Apply another set of framework overrides.
    pub fn apply(&mut self, other: &FrameworkOverrides)
        ensures
            final(self)@ == apply_frameworks(old(self)@, other@),
    {
        if other.test.is_some() {
            self.test = clone_opt(&other.test);
        }
        if other.binary.is_some() {
            self.binary = clone_opt(&other.binary);
        }
        if other.benchmark.is_some() {
            self.benchmark = clone_opt(&other.benchmark);
        }
        if other.doctest.is_some() {
            self.doctest = clone_opt(&other.doctest);
        }
        if other.build.is_some() {
            self.build = clone_opt(&other.build);
        }
    }
}

impl ArgsConfig {
    /// Apply another args config: lists are extended, except the arguments
    /// for test binaries, where the more specific ones come first.
    pub fn apply(&mut self, other: &ArgsConfig)
        ensures
            final(self)@ == apply_args(old(self)@, other@),
    {
        self.all = extended(&self.all, &other.all);
        self.test = extended(&self.test, &other.test);
        self.binary = extended(&self.binary, &other.binary);
        self.benchmark = extended(&self.benchmark, &other.benchmark);
        self.build = extended(&self.build, &other.build);
        self.test_binary = prepended(&self.test_binary, &other.test_binary);
    }
}

impl EnvConfig {
    /// The value set for `key`, when there is one.
    pub fn get(&self, key: &str) -> (r: Option<String>)
        ensures
            match r {
                Some(v) => crate::env::key_position(self@, key@) >= 0
                    && v@ == self@[crate::env::key_position(self@, key@)].1,
                None => crate::env::key_position(self@, key@) == -1,
            },
    {
        proof {
            lemma_key_position(self@, key@);
        }
        match find_key(&self.vars, key) {
            Some(i) => Some(self.vars[i].1.clone()),
            None => None,
        }
    }

    /// Apply another env config: its variables are set, replacing values.
    pub fn apply(&mut self, other: &EnvConfig)
        ensures
            final(self)@ == env_insert_all(old(self)@, other@),
    {
        let ghost start = self@;
        let mut i: usize = 0;
        while i < other.vars.len()
            invariant
                i <= other.vars@.len(),
                self@ == env_insert_all(start, other@.subrange(0, i as int)),
            decreases other.vars.len() - i,
        {
            let k = other.vars[i].0.clone();
            let v = other.vars[i].1.clone();
            proof {
                assert(other@.subrange(0, i + 1).drop_last() =~= other@.subrange(0, i as int));
                assert(other@.subrange(0, i + 1).last() == other@[i as int]);
            }
            env_set(&mut self.vars, k, v);
            i = i + 1;
        }
        assert(other@.subrange(0, i as int) =~= other@);
    }
}

impl LayerConfig {
    /// Create a new layer configuration.
    pub fn new() -> (r: Self)
        ensures
            r@ == empty_layer(),
    {
        let r = LayerConfig {
            build_system: None,
            frameworks: FrameworkOverrides { test: None, binary: None, benchmark: None, doctest: None, build: None },
            args: ArgsConfig { all: None, test: None, binary: None, benchmark: None, build: None, test_binary: None },
            env: EnvConfig { vars: Vec::new() },
        };
        assert(r.env@ =~= Seq::<(Seq<char>, Seq<char>)>::empty());
        r
    }

    /// Builder method for build system.
    pub fn with_build_system(self, build_system: BuildSystem) -> (r: Self)
        ensures
            r@ == (LayerView { build_system: Some(build_system), ..self@ }),
    {
        LayerConfig { build_system: Some(build_system), ..self }
    }

    /// Builder method for test framework.
    pub fn with_test_framework(self, strategy: &str) -> (r: Self)
        ensures
            r@ == (LayerView { frameworks: FrameworksView { test: Some(strategy@), ..self@.frameworks }, ..self@ }),
    {
        let mut s = self;
        s.frameworks.test = Some(String::from_str(strategy));
        s
    }

    /// Builder method for binary framework.
    pub fn with_binary_framework(self, strategy: &str) -> (r: Self)
        ensures
            r@ == (LayerView { frameworks: FrameworksView { binary: Some(strategy@), ..self@.frameworks }, ..self@ }),
    {
        let mut s = self;
        s.frameworks.binary = Some(String::from_str(strategy));
        s
    }

    /// Builder method for benchmark framework.
    pub fn with_benchmark_framework(self, strategy: &str) -> (r: Self)
        ensures
            r@ == (LayerView { frameworks: FrameworksView { benchmark: Some(strategy@), ..self@.frameworks }, ..self@ }),
    {
        let mut s = self;
        s.frameworks.benchmark = Some(String::from_str(strategy));
        s
    }

    /// Builder method for test args.
    pub fn with_test_args(self, args: Vec<String>) -> (r: Self)
        ensures
            r@ == (LayerView { args: ArgsView { test: Some(args.deep_view()), ..self@.args }, ..self@ }),
    {
        let mut s = self;
        s.args.test = Some(args);
        s
    }

    /// Builder method for environment variables.
    pub fn with_env(self, key: &str, value: &str) -> (r: Self)
        ensures
            r@ == (LayerView { env: env_insert(self@.env, key@, value@), ..self@ }),
    {
        let mut s = self;
        env_set(&mut s.env.vars, String::from_str(key), String::from_str(value));
        s
    }

    /// Apply another layer's config on top of this one.
    pub fn apply(&mut self, other: &LayerConfig)
        ensures
            final(self)@ == apply_layer(old(self)@, other@),
    {
        if other.build_system.is_some() {
            self.build_system = other.build_system;
        }
        self.frameworks.apply(&other.frameworks);
        self.args.apply(&other.args);
        self.env.apply(&other.env);
    }
}

} // verus!
