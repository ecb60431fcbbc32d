//! Command building by kind of file: standalone files are compiled with
//! rustc, single-file scripts run as their shebang line says (or under
//! `cargo +nightly -Zscript` for their tests and benchmarks), and files of
//! cargo projects get cargo test, doc test, bench and run commands. The
//! settings read here are the per-tool ones: cargo settings, single-file
//! script settings, and overrides with a block per tool.
use vstd::prelude::*;

use crate::command::cargo_command::{CargoCommand, CargoCommandView};
use crate::config::cargo_config::{CargoConfig, SingleFileScriptConfig};
use crate::command::builder::runnable_identity;
use crate::config::settings::matches_view;
use crate::error::Error;
use crate::types::{clone_opt, clone_strings, opt_view, FileType, FunctionIdentity, IdentityView, Runnable, RunnableKind};

pub mod script;
pub mod rustc;
pub mod cargo;
pub mod dispatch;

verus! {

/// Extra arguments and variables for one tool.
#[derive(Debug, Default)]
pub struct ToolSettings {
    pub extra_args: Option<Vec<String>>,
    pub extra_env: Option<Vec<(String, String)>>,
}

/// An override: the identity it applies to, and a block of settings per tool.
#[derive(Debug, Default)]
pub struct FileOverride {
    pub identity: FunctionIdentity,
    pub cargo: Option<CargoConfig>,
    pub single_file_script: Option<SingleFileScriptConfig>,
    pub rustc: Option<ToolSettings>,
}

/// The per-tool settings and the overrides.
#[derive(Debug, Default)]
pub struct FileConfig {
    pub cargo: Option<CargoConfig>,
    pub single_file_script: Option<SingleFileScriptConfig>,
    pub overrides: Vec<FileOverride>,
}

/// The list, or nothing.
pub open spec fn list_or_empty(o: Option<Vec<String>>) -> Seq<Seq<char>> {
    match o {
        Some(v) => v.deep_view(),
        None => Seq::empty(),
    }
}

/// The variables, or none.
pub open spec fn env_or_empty(o: Option<Vec<(String, String)>>) -> Seq<(Seq<char>, Seq<char>)> {
    match o {
        Some(v) => v.deep_view(),
        None => Seq::empty(),
    }
}

/// The extra arguments for a kind of file: the cargo settings' for a cargo
/// project, the script settings' for a single-file script, none for a
/// standalone file.
pub open spec fn cfg_extra_args(c: FileConfig, ft: FileType) -> Seq<Seq<char>> {
    match ft {
        FileType::CargoProject => match c.cargo {
            Some(x) => list_or_empty(x.extra_args),
            None => Seq::empty(),
        },
        FileType::SingleFileScript => match c.single_file_script {
            Some(x) => list_or_empty(x.extra_args),
            None => Seq::empty(),
        },
        FileType::Standalone => Seq::empty(),
    }
}

/// The extra variables for a kind of file, chosen as the arguments are.
pub open spec fn cfg_extra_env(c: FileConfig, ft: FileType) -> Seq<(Seq<char>, Seq<char>)> {
    match ft {
        FileType::CargoProject => match c.cargo {
            Some(x) => env_or_empty(x.extra_env),
            None => Seq::empty(),
        },
        FileType::SingleFileScript => match c.single_file_script {
            Some(x) => env_or_empty(x.extra_env),
            None => Seq::empty(),
        },
        FileType::Standalone => Seq::empty(),
    }
}

/// The toolchain channel: the cargo settings' for a cargo project only.
pub open spec fn cfg_channel(c: FileConfig, ft: FileType) -> Option<Seq<char>> {
    match ft {
        FileType::CargoProject => match c.cargo {
            Some(x) => opt_view(x.channel),
            None => None,
        },
        _ => None,
    }
}

/// The test binary arguments: the cargo settings' for a cargo project only.
pub open spec fn cfg_test_binary_args(c: FileConfig, ft: FileType) -> Seq<Seq<char>> {
    match ft {
        FileType::CargoProject => match c.cargo {
            Some(x) => list_or_empty(x.extra_test_binary_args),
            None => Seq::empty(),
        },
        _ => Seq::empty(),
    }
}

/// The package named in the cargo settings.
pub open spec fn cfg_package(c: FileConfig) -> Option<Seq<char>> {
    match c.cargo {
        Some(x) => opt_view(x.package),
        None => None,
    }
}

/// The first position from `i` on of an override matching the identity, or -1.
pub open spec fn override_from(os: Seq<FileOverride>, id: IdentityView, i: int) -> int
    decreases os.len() - i,
{
    if i < 0 || i >= os.len() {
        -1
    } else if matches_view(os[i].identity, id) {
        i
    } else {
        override_from(os, id, i + 1)
    }
}

/// The first override matching the identity.
pub open spec fn override_for(c: FileConfig, id: IdentityView) -> Option<FileOverride> {
    let p = override_from(c.overrides@, id, 0);
    if p >= 0 {
        Some(c.overrides@[p])
    } else {
        None
    }
}

/// The cargo block of the first matching override.
pub open spec fn ov_cargo(c: FileConfig, id: IdentityView) -> Option<CargoConfig> {
    match override_for(c, id) {
        Some(o) => o.cargo,
        None => None,
    }
}

/// The identity a runnable of a script or standalone file is matched by:
/// no package and no module, the file and the function.
pub open spec fn file_only_identity(r: Runnable) -> IdentityView {
    IdentityView { package: None, mod_path: None, ..runnable_identity(r, None) }
}

proof fn lemma_override_from(os: Seq<FileOverride>, id: IdentityView, i: int)
    requires
        0 <= i,
    ensures
        override_from(os, id, i) == -1 || (i <= override_from(os, id, i) < os.len()),
    decreases os.len() - i,
{
    if i < os.len() && !matches_view(os[i].identity, id) {
        lemma_override_from(os, id, i + 1);
    }
}

/// The first override matching the identity.
pub fn find_override<'a>(config: &'a FileConfig, id: &FunctionIdentity) -> (r: Option<&'a FileOverride>)
    ensures
        match r {
            Some(o) => override_for(*config, id@) == Some(*o),
            None => override_for(*config, id@) is None,
        },
{
    let mut i: usize = 0;
    proof {
        lemma_override_from(config.overrides@, id@, 0);
    }
    while i < config.overrides.len()
        invariant
            i <= config.overrides@.len(),
            override_from(config.overrides@, id@, 0) == override_from(config.overrides@, id@, i as int),
        decreases config.overrides.len() - i,
    {
        let o = &config.overrides[i];
        let hit = o.identity.matches(id);
        assert(hit == matches_view(o.identity, id@));
        if hit {
            return Some(o);
        }
        i = i + 1;
    }
    None
}

/// A copy of an optional list, or an empty list.
pub fn list_copy(o: &Option<Vec<String>>) -> (r: Vec<String>)
    ensures
        r.deep_view() == list_or_empty(*o),
{
    match o {
        Some(v) => clone_strings(v),
        None => {
            let r: Vec<String> = Vec::new();
            assert(r.deep_view() =~= Seq::<Seq<char>>::empty());
            r
        },
    }
}

/// A copy of optional variables, or none.
pub fn env_copy(o: &Option<Vec<(String, String)>>) -> (r: Vec<(String, String)>)
    ensures
        r.deep_view() == env_or_empty(*o),
{
    match o {
        Some(v) => crate::command::cargo_command::clone_pairs(v),
        None => crate::command::cargo_command::no_env(),
    }
}

/// The extra arguments for a kind of file.
pub fn extra_args_for(config: &FileConfig, ft: FileType) -> (r: Vec<String>)
    ensures
        r.deep_view() == cfg_extra_args(*config, ft),
{
    match ft {
        FileType::CargoProject => match &config.cargo {
            Some(x) => list_copy(&x.extra_args),
            None => list_copy(&None),
        },
        FileType::SingleFileScript => match &config.single_file_script {
            Some(x) => list_copy(&x.extra_args),
            None => list_copy(&None),
        },
        FileType::Standalone => list_copy(&None),
    }
}

/// The extra variables for a kind of file.
pub fn extra_env_for(config: &FileConfig, ft: FileType) -> (r: Vec<(String, String)>)
    ensures
        r.deep_view() == cfg_extra_env(*config, ft),
{
    match ft {
        FileType::CargoProject => match &config.cargo {
            Some(x) => env_copy(&x.extra_env),
            None => env_copy(&None),
        },
        FileType::SingleFileScript => match &config.single_file_script {
            Some(x) => env_copy(&x.extra_env),
            None => env_copy(&None),
        },
        FileType::Standalone => env_copy(&None),
    }
}

/// The channel for a kind of file.
pub fn channel_for(config: &FileConfig, ft: FileType) -> (r: Option<String>)
    ensures
        opt_view(r) == cfg_channel(*config, ft),
{
    match ft {
        FileType::CargoProject => match &config.cargo {
            Some(x) => clone_opt(&x.channel),
            None => None,
        },
        _ => None,
    }
}

/// The test binary arguments for a kind of file.
pub fn test_binary_args_for(config: &FileConfig, ft: FileType) -> (r: Vec<String>)
    ensures
        r.deep_view() == cfg_test_binary_args(*config, ft),
{
    match ft {
        FileType::CargoProject => match &config.cargo {
            Some(x) => list_copy(&x.extra_test_binary_args),
            None => list_copy(&None),
        },
        _ => list_copy(&None),
    }
}

/// The identity of a runnable: the given package, its module when it has
/// one, its file and its function.
pub fn identity_for(runnable: &Runnable, package: Option<String>) -> (r: FunctionIdentity)
    ensures
        r@ == runnable_identity(*runnable, opt_view(package)),
{
    FunctionIdentity {
        package,
        mod_path: if runnable.mod_path.unicode_len() == 0 {
            None
        } else {
            Some(runnable.mod_path.clone())
        },
        file_path: Some(runnable.file_path.clone()),
        function_name: runnable.get_function_name(),
    }
}

/// The command with the variables appended to its own, in order.
pub fn with_envs(cmd: CargoCommand, more: &Vec<(String, String)>) -> (r: CargoCommand)
    ensures
        r@ == (CargoCommandView { env: cmd@.env + more.deep_view(), ..cmd@ }),
{
    let ghost start = cmd@;
    let mut c = cmd;
    let mut i: usize = 0;
    while i < more.len()
        invariant
            i <= more@.len(),
            c@ == (CargoCommandView { env: start.env + more.deep_view().subrange(0, i as int), ..start }),
        decreases more.len() - i,
    {
        let k = more[i].0.clone();
        let v = more[i].1.clone();
        c = c.with_env(k, v);
        proof {
            let s = more.deep_view().subrange(0, i + 1);
            assert(s.drop_last() =~= more.deep_view().subrange(0, i as int));
            assert(s.last() == more.deep_view()[i as int]);
            assert(c@.env =~= start.env + s);
        }
        i = i + 1;
    }
    assert(more.deep_view().subrange(0, more@.len() as int) =~= more.deep_view());
    c
}

} // verus!
