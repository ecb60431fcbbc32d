//! Scope-layered configuration: layers matched against a context, merged
//! from least to most specific, and resolved into a command by a strategy.
use vstd::prelude::*;

pub mod scope;
pub mod layer;
pub mod strategy;
pub mod registry;
pub mod resolver;
pub mod builder;
pub mod cascade;
pub mod helpers;
pub mod target_detection;
pub mod target_selection_v2;
pub mod json;
pub mod loader;

use crate::build_system::{BuildSystem, BuildSystemDetector, DefaultBuildSystemDetector, PathFacts, detect_spec};
use crate::config::v2::builder::{ConfigBuilder, LayerConfigExt};
use crate::config::v2::layer::{ConfigLayer, LayerConfig, LayerView, FrameworksView, ArgsView};
use crate::config::v2::registry::{Strategy, StrategyRegistry, names_of, default_names};
use crate::config::v2::resolver::ConfigResolver;
use crate::config::v2::scope::Scope;
use crate::types::opt_strings_view;

verus! {

/// The root of a configuration: its layers from least to most specific
/// (as written), the strategies, and the linked projects.
#[derive(Debug)]
pub struct Config {
    layers: Vec<ConfigLayer>,
    registry: StrategyRegistry,
    pub linked_projects: Option<Vec<String>>,
}

/// A configuration as values.
pub struct ConfigView {
    pub layers: Seq<ConfigLayer>,
    pub registry: Seq<Strategy>,
    pub linked_projects: Option<Seq<Seq<char>>>,
}

impl View for Config {
    type V = ConfigView;

    closed spec fn view(&self) -> ConfigView {
        ConfigView {
            layers: self.layers@,
            registry: self.registry@,
            linked_projects: opt_strings_view(self.linked_projects),
        }
    }
}

/// The registry holds the default strategies, as constructed.
pub open spec fn default_registry(reg: Seq<Strategy>) -> bool {
    &&& names_of(reg) == default_names()
    &&& forall|i: int| 0 <= i < reg.len() ==> (#[trigger] reg[i]).is_fresh()
}

/// A workspace layer that sets the build system and the strategy names.
pub open spec fn workspace_defaults(
    layer: ConfigLayer,
    system: BuildSystem,
    test: Option<Seq<char>>,
    binary: Option<Seq<char>>,
    benchmark: Option<Seq<char>>,
    doctest: Option<Seq<char>>,
    build: Option<Seq<char>>,
) -> bool {
    &&& layer.scope is Workspace
    &&& layer.config@ == LayerView {
        build_system: Some(system),
        frameworks: FrameworksView { test, binary, benchmark, doctest, build },
        args: ArgsView { all: None, test: None, binary: None, benchmark: None, build: None, test_binary: None },
        env: Seq::empty(),
    }
}

/// The default layer for a build system.
pub open spec fn defaults_for(layer: ConfigLayer, system: BuildSystem) -> bool {
    match system {
        BuildSystem::Cargo => workspace_defaults(layer, system, Some("cargo-test"@), Some("cargo-run"@),
            Some("cargo-bench"@), Some("cargo-test"@), Some("cargo-build"@)),
        BuildSystem::Bazel => workspace_defaults(layer, system, Some("bazel-test"@), Some("bazel-run"@),
            Some("bazel-bench"@), Some("bazel-test"@), Some("bazel-build"@)),
        BuildSystem::Rustc => workspace_defaults(layer, system, Some("rustc-test"@), Some("rustc-run"@), None, None, None),
        BuildSystem::CargoScript => workspace_defaults(layer, system, Some("cargo-script-test"@),
            Some("cargo-script-run"@), None, None, None),
    }
}

/// The workspace layer of defaults for a build system.
fn default_layer(system: BuildSystem) -> (r: ConfigLayer)
    ensures
        defaults_for(r, system),
{
    let mut config = LayerConfig::new();
    config.build_system(system);
    match system {
        BuildSystem::Cargo => {
            config.framework_test("cargo-test").framework_binary("cargo-run").framework_benchmark("cargo-bench")
                .framework_doctest("cargo-test").framework_build("cargo-build");
        },
        BuildSystem::Bazel => {
            config.framework_test("bazel-test").framework_binary("bazel-run").framework_benchmark("bazel-bench")
                .framework_doctest("bazel-test").framework_build("bazel-build");
        },
        BuildSystem::Rustc => {
            config.framework_test("rustc-test").framework_binary("rustc-run");
        },
        BuildSystem::CargoScript => {
            config.framework_test("cargo-script-test").framework_binary("cargo-script-run");
        },
    }
    ConfigLayer::new(Scope::Workspace, config)
}

impl ConfigBuilder {
    /// Build the final configuration.
    pub fn build(self) -> (r: Config)
        ensures
            r@.layers == self.layers@,
            default_registry(r@.registry),
            r@.linked_projects is None,
    {
        Config::new(self.layers)
    }
}

impl Config {
    /// Create a new configuration with the given layers and the default strategies.
    pub fn new(layers: Vec<ConfigLayer>) -> (r: Self)
        ensures
            r@.layers == layers@,
            default_registry(r@.registry),
            r@.linked_projects is None,
    {
        Config { layers, registry: StrategyRegistry::new(), linked_projects: None }
    }

    /// A configuration whose single workspace layer selects Cargo and the cargo strategies.
    pub fn default_with_build_system() -> (r: Self)
        ensures
            r@.layers.len() == 1,
            defaults_for(r@.layers[0], BuildSystem::Cargo),
            default_registry(r@.registry),
            r@.linked_projects is None,
    {
        ConfigBuilder::new().layer_of(default_layer(BuildSystem::Cargo)).build()
    }

    /// A default configuration for the build system the facts about a path
    /// point to (Cargo when they point to none).
    pub fn default_with_detected_build_system(facts: &PathFacts) -> (r: Self)
        ensures
            r@.layers.len() == 1,
            defaults_for(r@.layers[0], detect_spec(*facts).unwrap_or(BuildSystem::Cargo)),
            default_registry(r@.registry),
            r@.linked_projects is None,
    {
        let detector = DefaultBuildSystemDetector;
        let system = match detector.detect(facts) {
            Some(s) => s,
            None => BuildSystem::Cargo,
        };
        ConfigBuilder::new().layer_of(default_layer(system)).build()
    }

    /// Create a configuration resolver for command building.
    pub fn resolver(&self) -> (r: ConfigResolver<'_>)
        ensures
            r.layers@ == self@.layers,
            r.registry@ == self@.registry,
            opt_strings_view(*r.linked_projects) == self@.linked_projects,
    {
        ConfigResolver::new(self.layers.as_slice(), &self.registry, &self.linked_projects)
    }

    /// A resolver for this configuration's layers that uses the given strategies.
    pub fn resolver_with<'a>(&'a self, registry: &'a StrategyRegistry) -> (r: ConfigResolver<'a>)
        ensures
            r.layers@ == self@.layers,
            r.registry@ == registry@,
            opt_strings_view(*r.linked_projects) == self@.linked_projects,
    {
        ConfigResolver::new(self.layers.as_slice(), registry, &self.linked_projects)
    }

    /// Check if the configuration has any layers.
    pub fn has_layers(&self) -> (r: bool)
        ensures
            r == (self@.layers.len() > 0),
    {
        self.layers.len() > 0
    }

    /// Get the number of layers.
    pub fn layers_count(&self) -> (r: usize)
        ensures
            r == self@.layers.len(),
    {
        self.layers.len()
    }

    /// Get the layers.
    pub fn layers(&self) -> (r: &[ConfigLayer])
        ensures
            r@ == self@.layers,
    {
        self.layers.as_slice()
    }

    /// Get a reference to the registry.
    pub fn registry(&self) -> (r: &StrategyRegistry)
        ensures
            r@ == self@.registry,
    {
        &self.registry
    }

    /// Whether the configuration names linked projects.
    pub fn has_linked_projects(&self) -> (r: bool)
        ensures
            r == self@.linked_projects is Some,
    {
        self.linked_projects.is_some()
    }

    /// Merge another config into this one: its layers come after this one's,
    /// so they take precedence at equal specificity; its linked projects are
    /// taken when this one has none.
    pub fn merge(&mut self, other: Config)
        ensures
            final(self)@.layers == old(self)@.layers + other@.layers,
            final(self)@.registry == old(self)@.registry,
            final(self)@.linked_projects == if old(self)@.linked_projects is None {
                other@.linked_projects
            } else {
                old(self)@.linked_projects
            },
    {
        let mut other = other;
        self.layers.append(&mut other.layers);
        if self.linked_projects.is_none() && other.linked_projects.is_some() {
            self.linked_projects = other.linked_projects;
        }
    }
}

} // verus!
