//! A fluent builder for layered configurations.
use vstd::prelude::*;
use crate::build_system::BuildSystem;
use crate::config::v2::layer::{ConfigLayer, LayerConfig, LayerView, FrameworksView, ArgsView, empty_layer};
use crate::config::v2::scope::Scope;
use crate::env::{env_insert, env_set};

verus! {

/// Builder for creating configurations: layers are kept in the order they are added.
pub struct ConfigBuilder {
    pub layers: Vec<ConfigLayer>,
}

impl ConfigBuilder {
    /// Create a new configuration builder.
    pub fn new() -> (r: Self)
        ensures
            r.layers@ == Seq::<ConfigLayer>::empty(),
    {
        ConfigBuilder { layers: Vec::new() }
    }

    /// Add a layer of the given scope whose configuration the closure fills.
    fn add<F: FnOnce(&mut LayerConfig)>(self, scope: Scope, f: F) -> (r: Self)
        requires
            forall|c: &mut LayerConfig| f.requires((c,)),
        ensures
            r.layers@.len() == self.layers@.len() + 1,
            r.layers@.subrange(0, self.layers@.len() as int) == self.layers@,
            r.layers@.last().scope == scope,
            exists|m: &mut LayerConfig| (*m)@ == empty_layer() && f.ensures((m,), ()) && r.layers@.last().config == *final(m),
    {
        let mut config = LayerConfig::new();
        f(&mut config);
        let mut b = self;
        b.layers.push(ConfigLayer::new(scope, config));
        assert(b.layers@.subrange(0, self.layers@.len() as int) =~= self.layers@);
        b
    }

    /// Add a workspace-level configuration, filled by the closure.
    pub fn workspace<F: FnOnce(&mut LayerConfig)>(self, f: F) -> (r: Self)
        requires
            forall|c: &mut LayerConfig| f.requires((c,)),
        ensures
            r.layers@.len() == self.layers@.len() + 1,
            r.layers@.subrange(0, self.layers@.len() as int) == self.layers@,
            r.layers@.last().scope matches Scope::Workspace,
            exists|m: &mut LayerConfig| (*m)@ == empty_layer() && f.ensures((m,), ()) && r.layers@.last().config == *final(m),
    {
        self.add(Scope::Workspace, f)
    }

    /// Add a crate-level override, filled by the closure.
    pub fn crate_override<F: FnOnce(&mut LayerConfig)>(self, crate_name: &str, f: F) -> (r: Self)
        requires
            forall|c: &mut LayerConfig| f.requires((c,)),
        ensures
            r.layers@.len() == self.layers@.len() + 1,
            r.layers@.subrange(0, self.layers@.len() as int) == self.layers@,
            r.layers@.last().scope matches Scope::Crate(n) && n@ == crate_name@,
            exists|m: &mut LayerConfig| (*m)@ == empty_layer() && f.ensures((m,), ()) && r.layers@.last().config == *final(m),
    {
        self.add(Scope::Crate(String::from_str(crate_name)), f)
    }

    /// Add a file-level override, filled by the closure.
    pub fn file_override<F: FnOnce(&mut LayerConfig)>(self, file_path: &str, f: F) -> (r: Self)
        requires
            forall|c: &mut LayerConfig| f.requires((c,)),
        ensures
            r.layers@.len() == self.layers@.len() + 1,
            r.layers@.subrange(0, self.layers@.len() as int) == self.layers@,
            r.layers@.last().scope matches Scope::File(n) && n@ == file_path@,
            exists|m: &mut LayerConfig| (*m)@ == empty_layer() && f.ensures((m,), ()) && r.layers@.last().config == *final(m),
    {
        self.add(Scope::File(String::from_str(file_path)), f)
    }

    /// Add a module-level override, filled by the closure.
    pub fn module_override<F: FnOnce(&mut LayerConfig)>(self, mod_path: &str, f: F) -> (r: Self)
        requires
            forall|c: &mut LayerConfig| f.requires((c,)),
        ensures
            r.layers@.len() == self.layers@.len() + 1,
            r.layers@.subrange(0, self.layers@.len() as int) == self.layers@,
            r.layers@.last().scope matches Scope::Module(n) && n@ == mod_path@,
            exists|m: &mut LayerConfig| (*m)@ == empty_layer() && f.ensures((m,), ()) && r.layers@.last().config == *final(m),
    {
        self.add(Scope::Module(String::from_str(mod_path)), f)
    }

    /// Add a function-level override, filled by the closure.
    pub fn function_override<F: FnOnce(&mut LayerConfig)>(self, function_name: &str, f: F) -> (r: Self)
        requires
            forall|c: &mut LayerConfig| f.requires((c,)),
        ensures
            r.layers@.len() == self.layers@.len() + 1,
            r.layers@.subrange(0, self.layers@.len() as int) == self.layers@,
            r.layers@.last().scope matches Scope::Function(n) && n@ == function_name@,
            exists|m: &mut LayerConfig| (*m)@ == empty_layer() && f.ensures((m,), ()) && r.layers@.last().config == *final(m),
    {
        self.add(Scope::Function(String::from_str(function_name)), f)
    }

    /// Add an already built layer.
    pub(crate) fn layer_of(self, layer: ConfigLayer) -> (r: Self)
        ensures
            r.layers@ == self.layers@.push(layer),
    {
        let mut b = self;
        b.layers.push(layer);
        b
    }

    /// Add a raw configuration layer.
    pub fn layer(self, scope: Scope, config: LayerConfig) -> (r: Self)
        ensures
            r.layers@ == self.layers@.push(ConfigLayer { scope, config }),
    {
        let mut b = self;
        b.layers.push(ConfigLayer::new(scope, config));
        b
    }
}

/// Setters for a layer's configuration that can be chained.
pub trait LayerConfigExt {
    fn build_system(&mut self, system: BuildSystem) -> &mut Self;
    fn framework_test(&mut self, strategy: &str) -> &mut Self;
    fn framework_binary(&mut self, strategy: &str) -> &mut Self;
    fn framework_benchmark(&mut self, strategy: &str) -> &mut Self;
    fn framework_doctest(&mut self, strategy: &str) -> &mut Self;
    fn framework_build(&mut self, strategy: &str) -> &mut Self;
    fn args_all(&mut self, args: Vec<String>) -> &mut Self;
    fn args_test(&mut self, args: Vec<String>) -> &mut Self;
    fn args_binary(&mut self, args: Vec<String>) -> &mut Self;
    fn args_benchmark(&mut self, args: Vec<String>) -> &mut Self;
    fn args_build(&mut self, args: Vec<String>) -> &mut Self;
    fn args_test_binary(&mut self, args: Vec<String>) -> &mut Self;
    fn env(&mut self, key: &str, value: &str) -> &mut Self;
}

impl LayerConfigExt for LayerConfig {
    fn build_system(&mut self, system: BuildSystem) -> (r: &mut Self)
        ensures
            (*r)@ == (LayerView { build_system: Some(system), ..old(self)@ }),
            *final(self) == *final(r),
    {
        self.build_system = Some(system);
        self
    }

    fn framework_test(&mut self, strategy: &str) -> (r: &mut Self)
        ensures
            (*r)@ == (LayerView { frameworks: FrameworksView { test: Some(strategy@), ..old(self)@.frameworks }, ..old(self)@ }),
            *final(self) == *final(r),
    {
        self.frameworks.test = Some(String::from_str(strategy));
        self
    }

    fn framework_binary(&mut self, strategy: &str) -> (r: &mut Self)
        ensures
            (*r)@ == (LayerView { frameworks: FrameworksView { binary: Some(strategy@), ..old(self)@.frameworks }, ..old(self)@ }),
            *final(self) == *final(r),
    {
        self.frameworks.binary = Some(String::from_str(strategy));
        self
    }

    fn framework_benchmark(&mut self, strategy: &str) -> (r: &mut Self)
        ensures
            (*r)@ == (LayerView { frameworks: FrameworksView { benchmark: Some(strategy@), ..old(self)@.frameworks }, ..old(self)@ }),
            *final(self) == *final(r),
    {
        self.frameworks.benchmark = Some(String::from_str(strategy));
        self
    }

    fn framework_doctest(&mut self, strategy: &str) -> (r: &mut Self)
        ensures
            (*r)@ == (LayerView { frameworks: FrameworksView { doctest: Some(strategy@), ..old(self)@.frameworks }, ..old(self)@ }),
            *final(self) == *final(r),
    {
        self.frameworks.doctest = Some(String::from_str(strategy));
        self
    }

    fn framework_build(&mut self, strategy: &str) -> (r: &mut Self)
        ensures
            (*r)@ == (LayerView { frameworks: FrameworksView { build: Some(strategy@), ..old(self)@.frameworks }, ..old(self)@ }),
            *final(self) == *final(r),
    {
        self.frameworks.build = Some(String::from_str(strategy));
        self
    }

    fn args_all(&mut self, args: Vec<String>) -> (r: &mut Self)
        ensures
            (*r)@ == (LayerView { args: ArgsView { all: Some(args.deep_view()), ..old(self)@.args }, ..old(self)@ }),
            *final(self) == *final(r),
    {
        self.args.all = Some(args);
        self
    }

    fn args_test(&mut self, args: Vec<String>) -> (r: &mut Self)
        ensures
            (*r)@ == (LayerView { args: ArgsView { test: Some(args.deep_view()), ..old(self)@.args }, ..old(self)@ }),
            *final(self) == *final(r),
    {
        self.args.test = Some(args);
        self
    }

    fn args_binary(&mut self, args: Vec<String>) -> (r: &mut Self)
        ensures
            (*r)@ == (LayerView { args: ArgsView { binary: Some(args.deep_view()), ..old(self)@.args }, ..old(self)@ }),
            *final(self) == *final(r),
    {
        self.args.binary = Some(args);
        self
    }

    fn args_benchmark(&mut self, args: Vec<String>) -> (r: &mut Self)
        ensures
            (*r)@ == (LayerView { args: ArgsView { benchmark: Some(args.deep_view()), ..old(self)@.args }, ..old(self)@ }),
            *final(self) == *final(r),
    {
        self.args.benchmark = Some(args);
        self
    }

    fn args_build(&mut self, args: Vec<String>) -> (r: &mut Self)
        ensures
            (*r)@ == (LayerView { args: ArgsView { build: Some(args.deep_view()), ..old(self)@.args }, ..old(self)@ }),
            *final(self) == *final(r),
    {
        self.args.build = Some(args);
        self
    }

    fn args_test_binary(&mut self, args: Vec<String>) -> (r: &mut Self)
        ensures
            (*r)@ == (LayerView { args: ArgsView { test_binary: Some(args.deep_view()), ..old(self)@.args }, ..old(self)@ }),
            *final(self) == *final(r),
    {
        self.args.test_binary = Some(args);
        self
    }

    fn env(&mut self, key: &str, value: &str) -> (r: &mut Self)
        ensures
            (*r)@ == (LayerView { env: env_insert(old(self)@.env, key@, value@), ..old(self)@ }),
            *final(self) == *final(r),
    {
        env_set(&mut self.env.vars, String::from_str(key), String::from_str(value));
        self
    }
}

} // verus!
