//! The shape of a configuration file, and how it becomes a layered
//! configuration: top-level settings form the workspace layer, then come the
//! crate, file, module and function overrides.
use vstd::prelude::*;
use crate::build_system::BuildSystem;
use crate::config::v2::Config;
use crate::config::v2::builder::{ConfigBuilder, LayerConfigExt};
use crate::config::v2::layer::{ConfigLayer, LayerConfig, LayerView, FrameworksView, ArgsView, empty_layer};
use crate::config::v2::scope::{Scope, ScopeView};
use crate::env::{EnvView, env_insert, env_insert_all, env_set};
use crate::types::{opt_view, opt_strings_view, clone_strings};

verus! {

/// A configuration file.
#[derive(Debug)]
pub struct JsonConfig {
    pub version: Option<String>,
    pub linked_projects: Option<Vec<String>>,
    pub build_system: Option<BuildSystem>,
    pub frameworks: Option<JsonFrameworks>,
    pub args: Option<JsonArgs>,
    pub env: Vec<(String, String)>,
    pub workspace: Option<JsonLayerConfig>,
    pub crates: Vec<(String, JsonLayerConfig)>,
    pub files: Vec<(String, JsonLayerConfig)>,
    pub modules: Vec<(String, JsonLayerConfig)>,
    pub functions: Vec<(String, JsonLayerConfig)>,
}

/// A layer of a configuration file.
#[derive(Debug, Default)]
pub struct JsonLayerConfig {
    pub build_system: Option<BuildSystem>,
    pub frameworks: Option<JsonFrameworks>,
    pub args: Option<JsonArgs>,
    pub env: Vec<(String, String)>,
}

/// Strategy names of a configuration file.
#[derive(Debug, Default)]
pub struct JsonFrameworks {
    pub test: Option<String>,
    pub binary: Option<String>,
    pub benchmark: Option<String>,
    pub doctest: Option<String>,
    pub build: Option<String>,
}

/// Argument lists of a configuration file.
#[derive(Debug, Default)]
pub struct JsonArgs {
    pub all: Option<Vec<String>>,
    pub test: Option<Vec<String>>,
    pub binary: Option<Vec<String>>,
    pub benchmark: Option<Vec<String>>,
    pub build: Option<Vec<String>>,
    pub test_binary: Option<Vec<String>>,
}

/// `v` when it is set, otherwise `base`.
pub open spec fn set_if<T>(base: Option<T>, v: Option<T>) -> Option<T> {
    if v is Some {
        v
    } else {
        base
    }
}

/// Strategy names set by a file's frameworks section.
pub open spec fn json_frameworks(base: FrameworksView, f: Option<JsonFrameworks>) -> FrameworksView {
    match f {
        None => base,
        Some(f) => FrameworksView {
            test: set_if(base.test, opt_view(f.test)),
            binary: set_if(base.binary, opt_view(f.binary)),
            benchmark: set_if(base.benchmark, opt_view(f.benchmark)),
            doctest: set_if(base.doctest, opt_view(f.doctest)),
            build: set_if(base.build, opt_view(f.build)),
        },
    }
}

/// Argument lists set by a file's args section.
pub open spec fn json_args(base: ArgsView, a: Option<JsonArgs>) -> ArgsView {
    match a {
        None => base,
        Some(a) => ArgsView {
            all: set_if(base.all, opt_strings_view(a.all)),
            test: set_if(base.test, opt_strings_view(a.test)),
            binary: set_if(base.binary, opt_strings_view(a.binary)),
            benchmark: set_if(base.benchmark, opt_strings_view(a.benchmark)),
            build: set_if(base.build, opt_strings_view(a.build)),
            test_binary: set_if(base.test_binary, opt_strings_view(a.test_binary)),
        },
    }
}

/// A layer with the settings of a file's section applied: what the section
/// sets replaces, and its variables are set in turn.
pub open spec fn json_apply(
    base: LayerView,
    build_system: Option<BuildSystem>,
    frameworks: Option<JsonFrameworks>,
    args: Option<JsonArgs>,
    env: EnvView,
) -> LayerView {
    LayerView {
        build_system: set_if(base.build_system, build_system),
        frameworks: json_frameworks(base.frameworks, frameworks),
        args: json_args(base.args, args),
        env: env_insert_all(base.env, env),
    }
}

/// The layer a file's section describes.
pub open spec fn json_layer_view(j: JsonLayerConfig) -> LayerView {
    json_apply(empty_layer(), j.build_system, j.frameworks, j.args, j.env.deep_view())
}

/// The file has top-level settings or a workspace section.
pub open spec fn has_workspace_layer(j: JsonConfig) -> bool {
    j.build_system is Some || j.frameworks is Some || j.args is Some || j.env@.len() > 0 || j.workspace is Some
}

/// The workspace layer: top-level settings, then the workspace section.
pub open spec fn workspace_view(j: JsonConfig) -> LayerView {
    let top = json_apply(empty_layer(), j.build_system, j.frameworks, j.args, j.env.deep_view());
    match j.workspace {
        Some(w) => json_apply(top, w.build_system, w.frameworks, w.args, w.env.deep_view()),
        None => top,
    }
}

/// The scope of an override of the given kind: 0 for crates, 1 for files,
/// 2 for modules, 3 for functions.
pub open spec fn override_scope(kind: u8, n: Seq<char>) -> ScopeView {
    if kind == 0 {
        ScopeView::Crate(n)
    } else if kind == 1 {
        ScopeView::File(n)
    } else if kind == 2 {
        ScopeView::Module(n)
    } else {
        ScopeView::Function(n)
    }
}

/// The layers of overrides of one kind, in the file's order.
pub open spec fn override_layers(entries: Seq<(String, JsonLayerConfig)>, kind: u8) -> Seq<(ScopeView, LayerView)> {
    entries.map_values(|e: (String, JsonLayerConfig)| (override_scope(kind, e.0@), json_layer_view(e.1)))
}

/// Every layer a file describes, scope and settings, in order.
pub open spec fn json_layers(j: JsonConfig) -> Seq<(ScopeView, LayerView)> {
    (if has_workspace_layer(j) {
        seq![(ScopeView::Workspace, workspace_view(j))]
    } else {
        Seq::empty()
    }) + override_layers(j.crates@, 0) + override_layers(j.files@, 1) + override_layers(j.modules@, 2)
        + override_layers(j.functions@, 3)
}

/// The scope and settings of each layer.
pub open spec fn layer_views(ls: Seq<ConfigLayer>) -> Seq<(ScopeView, LayerView)> {
    ls.map_values(|l: ConfigLayer| (l.scope@, l.config@))
}

fn copy_opt(o: &Option<String>) -> (r: Option<String>)
    ensures
        opt_view(r) == opt_view(*o),
{
    match o {
        Some(s) => Some(s.clone()),
        None => None,
    }
}

fn apply_frameworks_section(layer: &mut LayerConfig, frameworks: &Option<JsonFrameworks>)
    ensures
        final(layer)@ == (LayerView { frameworks: json_frameworks(old(layer)@.frameworks, *frameworks), ..old(layer)@ }),
{
    match frameworks {
        Some(f) => {
            if f.test.is_some() {
                layer.frameworks.test = copy_opt(&f.test);
            }
            if f.binary.is_some() {
                layer.frameworks.binary = copy_opt(&f.binary);
            }
            if f.benchmark.is_some() {
                layer.frameworks.benchmark = copy_opt(&f.benchmark);
            }
            if f.doctest.is_some() {
                layer.frameworks.doctest = copy_opt(&f.doctest);
            }
            if f.build.is_some() {
                layer.frameworks.build = copy_opt(&f.build);
            }
        },
        None => {},
    }
}

fn set_args(slot: &mut Option<Vec<String>>, v: &Option<Vec<String>>)
    ensures
        opt_strings_view(*final(slot)) == set_if(opt_strings_view(*old(slot)), opt_strings_view(*v)),
{
    match v {
        Some(a) => *slot = Some(clone_strings(a)),
        None => {},
    }
}

fn apply_args_section(layer: &mut LayerConfig, args: &Option<JsonArgs>)
    ensures
        final(layer)@ == (LayerView { args: json_args(old(layer)@.args, *args), ..old(layer)@ }),
{
    match args {
        Some(a) => {
            set_args(&mut layer.args.all, &a.all);
            set_args(&mut layer.args.test, &a.test);
            set_args(&mut layer.args.binary, &a.binary);
            set_args(&mut layer.args.benchmark, &a.benchmark);
            set_args(&mut layer.args.build, &a.build);
            set_args(&mut layer.args.test_binary, &a.test_binary);
        },
        None => {},
    }
}

/// Applies a file's section to a layer.
fn apply_section(
    layer: &mut LayerConfig,
    build_system: Option<BuildSystem>,
    frameworks: &Option<JsonFrameworks>,
    args: &Option<JsonArgs>,
    env: &Vec<(String, String)>,
)
    ensures
        final(layer)@ == json_apply(old(layer)@, build_system, *frameworks, *args, env.deep_view()),
{
    if build_system.is_some() {
        layer.build_system = build_system;
    }
    apply_frameworks_section(layer, frameworks);
    apply_args_section(layer, args);
    let other = crate::config::v2::layer::EnvConfig { vars: crate::command::cargo_command::clone_pairs(env) };
    layer.env.apply(&other);
}

/// The override layers of one kind, appended to `layers`.
fn push_overrides(
    layers: &mut Vec<ConfigLayer>,
    entries: &Vec<(String, JsonLayerConfig)>,
    kind: u8,
)
    requires
        kind < 4,
    ensures
        layer_views(final(layers)@) == layer_views(old(layers)@) + override_layers(entries@, kind),
{
    let ghost start = layer_views(layers@);
    let mut i: usize = 0;
    while i < entries.len()
        invariant
            i <= entries@.len(),
            kind < 4,
            layer_views(layers@) == start + override_layers(entries@.subrange(0, i as int), kind),
        decreases entries.len() - i,
    {
        let name = entries[i].0.clone();
        let section = &entries[i].1;
        let mut config = LayerConfig::new();
        apply_section(&mut config, section.build_system, &section.frameworks, &section.args, &section.env);
        let s = if kind == 0 {
            Scope::Crate(name)
        } else if kind == 1 {
            Scope::File(name)
        } else if kind == 2 {
            Scope::Module(name)
        } else {
            Scope::Function(name)
        };
        let ghost before = layers@;
        proof {
            assert(s@ == override_scope(kind, entries@[i as int].0@));
            assert(config@ == json_layer_view(entries@[i as int].1));
        }
        layers.push(ConfigLayer::new(s, config));
        proof {
            assert(layers@ == before.push(ConfigLayer { scope: s, config }));
            assert(layer_views(layers@) =~= layer_views(before).push((s@, config@)));
            assert(override_layers(entries@.subrange(0, i + 1), kind) =~= override_layers(
                entries@.subrange(0, i as int),
                kind,
            ).push((override_scope(kind, entries@[i as int].0@), json_layer_view(entries@[i as int].1))));
        }
        i = i + 1;
    }
    assert(entries@.subrange(0, i as int) =~= entries@);
}

impl JsonConfig {
    /// Convert to a layered configuration with the linked projects of the file.
    pub fn to_config(self) -> (r: Config)
        ensures
            layer_views(r@.layers) == json_layers(self),
            crate::config::v2::default_registry(r@.registry),
            r@.linked_projects == opt_strings_view(self.linked_projects),
    {
        let mut layers: Vec<ConfigLayer> = Vec::new();
        let has_top = self.build_system.is_some() || self.frameworks.is_some() || self.args.is_some()
            || self.env.len() > 0;
        if has_top || self.workspace.is_some() {
            let mut w = LayerConfig::new();
            apply_section(&mut w, self.build_system, &self.frameworks, &self.args, &self.env);
            match &self.workspace {
                Some(ws) => apply_section(&mut w, ws.build_system, &ws.frameworks, &ws.args, &ws.env),
                None => {},
            }
            layers.push(ConfigLayer::new(Scope::Workspace, w));
        }
        let ghost head = layer_views(layers@);
        proof {
            assert(head =~= (if has_workspace_layer(self) {
                seq![(ScopeView::Workspace, workspace_view(self))]
            } else {
                Seq::empty()
            }));
        }
        push_overrides(&mut layers, &self.crates, 0);
        push_overrides(&mut layers, &self.files, 1);
        push_overrides(&mut layers, &self.modules, 2);
        push_overrides(&mut layers, &self.functions, 3);
        proof {
            assert(layer_views(layers@) =~= json_layers(self));
        }
        let mut config = ConfigBuilder { layers }.build();
        config.linked_projects = self.linked_projects;
        config
    }
}

} // verus!
