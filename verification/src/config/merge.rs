//! Merging settings files: root, then workspace, then package. Settings
//! that name one thing are replaced; lists and variables accumulate unless
//! a replacement is forced; per-function overrides merge by identity.
use vstd::prelude::*;
use crate::command::cargo_command::clone_pairs;
use crate::config::override_config::{Override, OverrideView, opt_env_view};
use crate::config::settings::Config;
use crate::config::test_framework::{FrameworkView, opt_framework_view, copy_framework};
use crate::env::{EnvView, env_insert_all, env_set};
use crate::types::{FunctionIdentity, IdentityView, opt_view, opt_strings_view, clone_opt, clone_strings, extend_strings};

verus! {

/// Which settings files were loaded.
#[derive(Debug)]
pub struct ConfigInfo {
    pub root_config_path: Option<String>,
    pub workspace_config_path: Option<String>,
    pub package_config_path: Option<String>,
}

/// The settings of the three levels, and where they came from.
pub struct ConfigMerger {
    pub root_config: Option<Config>,
    pub workspace_config: Option<Config>,
    pub package_config: Option<Config>,
    pub config_info: ConfigInfo,
}

/// `v` when set, otherwise `base`.
pub open spec fn or_else<T>(base: Option<T>, v: Option<T>) -> Option<T> {
    if v is Some {
        v
    } else {
        base
    }
}

/// A list merged into another: replaced when forced or when there is none,
/// otherwise extended.
pub open spec fn merge_list(base: Option<Seq<Seq<char>>>, more: Option<Seq<Seq<char>>>, force: bool) -> Option<Seq<Seq<char>>> {
    match more {
        None => base,
        Some(m) => if force || base is None {
            Some(m)
        } else {
            Some(base->0 + m)
        },
    }
}

/// Variables merged into others: replaced when forced or when there are
/// none, otherwise each is set in turn.
pub open spec fn merge_env(base: Option<EnvView>, more: Option<EnvView>, force: bool) -> Option<EnvView> {
    match more {
        None => base,
        Some(m) => if force || base is None {
            Some(m)
        } else {
            Some(env_insert_all(base->0, m))
        },
    }
}

/// An override merged into an existing one for the same identity.
pub open spec fn merge_override(e: OverrideView, n: OverrideView) -> OverrideView {
    let force_args = n.force_replace_args == Some(true);
    let force_env = n.force_replace_env == Some(true);
    OverrideView {
        identity: e.identity,
        command: or_else(e.command, n.command),
        subcommand: or_else(e.subcommand, n.subcommand),
        channel: or_else(e.channel, n.channel),
        extra_args: merge_list(e.extra_args, n.extra_args, force_args),
        extra_test_binary_args: merge_list(e.extra_test_binary_args, n.extra_test_binary_args, force_args),
        test_framework: or_else(e.test_framework, n.test_framework),
        force_replace_args: or_else(e.force_replace_args, n.force_replace_args),
        extra_env: merge_env(e.extra_env, n.extra_env, force_env),
        force_replace_env: or_else(e.force_replace_env, n.force_replace_env),
    }
}

/// Position of the first override with the same identity, or -1.
pub open spec fn same_identity_position(s: Seq<OverrideView>, id: IdentityView) -> int
    decreases s.len(),
{
    if s.len() == 0 {
        -1
    } else {
        let p = same_identity_position(s.drop_last(), id);
        if p >= 0 {
            p
        } else if s.last().identity == id {
            s.len() - 1
        } else {
            -1
        }
    }
}

/// Overrides merged in turn: into the override of the same identity, or appended.
pub open spec fn merge_overrides_spec(base: Seq<OverrideView>, news: Seq<OverrideView>) -> Seq<OverrideView>
    decreases news.len(),
{
    if news.len() == 0 {
        base
    } else {
        let b = merge_overrides_spec(base, news.drop_last());
        let n = news.last();
        let p = same_identity_position(b, n.identity);
        if p >= 0 {
            b.update(p, merge_override(b[p], n))
        } else {
            b.push(n)
        }
    }
}

/// The overrides as values.
pub open spec fn overrides_view(s: Seq<Override>) -> Seq<OverrideView> {
    s.map_values(|o: Override| o@)
}

/// The settings as values, every field but the cache settings.
pub struct SettingsView {
    pub command: Option<Seq<char>>,
    pub subcommand: Option<Seq<char>>,
    pub channel: Option<Seq<char>>,
    pub extra_args: Option<Seq<Seq<char>>>,
    pub env: Option<EnvView>,
    pub extra_test_binary_args: Option<Seq<Seq<char>>>,
    pub test_frameworks: Option<FrameworkView>,
    pub binary_framework: Option<FrameworkView>,
    pub linked_projects: Option<Seq<Seq<char>>>,
    pub package: Option<Seq<char>>,
    pub overrides: Seq<OverrideView>,
}

/// The settings of a configuration as values.
pub open spec fn settings_view(c: Config) -> SettingsView {
    SettingsView {
        command: opt_view(c.command),
        subcommand: opt_view(c.subcommand),
        channel: opt_view(c.channel),
        extra_args: opt_strings_view(c.extra_args),
        env: opt_env_view(c.env),
        extra_test_binary_args: opt_strings_view(c.extra_test_binary_args),
        test_frameworks: opt_framework_view(c.test_frameworks),
        binary_framework: opt_framework_view(c.binary_framework),
        linked_projects: opt_strings_view(c.linked_projects),
        package: opt_view(c.package),
        overrides: overrides_view(c.overrides@),
    }
}

/// Settings `over` merged into `base`.
pub open spec fn merge_settings(base: SettingsView, over: SettingsView, force: bool) -> SettingsView {
    SettingsView {
        command: or_else(base.command, over.command),
        subcommand: or_else(base.subcommand, over.subcommand),
        channel: or_else(base.channel, over.channel),
        extra_args: merge_list(base.extra_args, over.extra_args, force),
        env: merge_env(base.env, over.env, force),
        extra_test_binary_args: merge_list(base.extra_test_binary_args, over.extra_test_binary_args, force),
        test_frameworks: or_else(base.test_frameworks, over.test_frameworks),
        binary_framework: or_else(base.binary_framework, over.binary_framework),
        linked_projects: or_else(base.linked_projects, over.linked_projects),
        package: or_else(base.package, over.package),
        overrides: merge_overrides_spec(base.overrides, over.overrides),
    }
}

/// The settings with nothing set.
pub open spec fn empty_settings() -> SettingsView {
    SettingsView {
        command: None,
        subcommand: None,
        channel: None,
        extra_args: None,
        env: None,
        extra_test_binary_args: None,
        test_frameworks: None,
        binary_framework: None,
        linked_projects: None,
        package: None,
        overrides: Seq::empty(),
    }
}

fn copy_list(o: &Option<Vec<String>>) -> (r: Option<Vec<String>>)
    ensures
        opt_strings_view(r) == opt_strings_view(*o),
{
    match o {
        Some(v) => Some(clone_strings(v)),
        None => None,
    }
}

fn copy_env(o: &Option<Vec<(String, String)>>) -> (r: Option<Vec<(String, String)>>)
    ensures
        opt_env_view(r) == opt_env_view(*o),
{
    match o {
        Some(v) => Some(clone_pairs(v)),
        None => None,
    }
}

/// `merge_list` on a slot.
fn merge_list_into(slot: &mut Option<Vec<String>>, more: &Option<Vec<String>>, force: bool)
    ensures
        opt_strings_view(*final(slot)) == merge_list(opt_strings_view(*old(slot)), opt_strings_view(*more), force),
{
    match more {
        None => {},
        Some(m) => {
            if force || slot.is_none() {
                *slot = Some(clone_strings(m));
            } else {
                let mut v = match slot {
                    Some(b) => clone_strings(b),
                    None => Vec::new(),
                };
                extend_strings(&mut v, m);
                *slot = Some(v);
            }
        },
    }
}

/// `merge_env` on a slot.
fn merge_env_into(slot: &mut Option<Vec<(String, String)>>, more: &Option<Vec<(String, String)>>, force: bool)
    ensures
        opt_env_view(*final(slot)) == merge_env(opt_env_view(*old(slot)), opt_env_view(*more), force),
{
    match more {
        None => {},
        Some(m) => {
            if force || slot.is_none() {
                *slot = Some(clone_pairs(m));
            } else {
                let mut e = crate::config::v2::layer::EnvConfig {
                    vars: match slot {
                        Some(b) => clone_pairs(b),
                        None => Vec::new(),
                    },
                };
                e.apply(&crate::config::v2::layer::EnvConfig { vars: clone_pairs(m) });
                *slot = Some(e.vars);
            }
        },
    }
}

/// A copy of an override, field by field.
fn copy_override(o: &Override) -> (r: Override)
    ensures
        r@ == o@,
{
    Override {
        identity: o.identity.duplicate(),
        command: clone_opt(&o.command),
        subcommand: clone_opt(&o.subcommand),
        channel: clone_opt(&o.channel),
        extra_args: copy_list(&o.extra_args),
        extra_test_binary_args: copy_list(&o.extra_test_binary_args),
        test_framework: copy_framework(&o.test_framework),
        force_replace_args: o.force_replace_args,
        extra_env: copy_env(&o.extra_env),
        force_replace_env: o.force_replace_env,
    }
}

/// Merges `n` into `e`.
fn merge_override_into(e: &mut Override, n: &Override)
    ensures
        final(e)@ == merge_override(old(e)@, n@),
{
    if n.command.is_some() {
        e.command = clone_opt(&n.command);
    }
    if n.subcommand.is_some() {
        e.subcommand = clone_opt(&n.subcommand);
    }
    if n.channel.is_some() {
        e.channel = clone_opt(&n.channel);
    }
    if n.test_framework.is_some() {
        e.test_framework = copy_framework(&n.test_framework);
    }
    let force_args = match n.force_replace_args {
        Some(b) => b,
        None => false,
    };
    let force_env = match n.force_replace_env {
        Some(b) => b,
        None => false,
    };
    merge_list_into(&mut e.extra_args, &n.extra_args, force_args);
    merge_list_into(&mut e.extra_test_binary_args, &n.extra_test_binary_args, force_args);
    merge_env_into(&mut e.extra_env, &n.extra_env, force_env);
    if n.force_replace_args.is_some() {
        e.force_replace_args = n.force_replace_args;
    }
    if n.force_replace_env.is_some() {
        e.force_replace_env = n.force_replace_env;
    }
}

/// Position of the first override with the same identity.
fn find_same_identity(s: &Vec<Override>, id: &FunctionIdentity) -> (r: Option<usize>)
    ensures
        match r {
            Some(p) => p as int == same_identity_position(overrides_view(s@), id@) && p < s@.len(),
            None => same_identity_position(overrides_view(s@), id@) == -1,
        },
{
    let ghost v = overrides_view(s@);
    let mut i: usize = 0;
    while i < s.len()
        invariant
            i <= s@.len(),
            v == overrides_view(s@),
            same_identity_position(v.subrange(0, i as int), id@) == -1,
        decreases s.len() - i,
    {
        assert(v.subrange(0, i + 1).drop_last() =~= v.subrange(0, i as int));
        if s[i].identity.same_identity(id) {
            proof {
                lemma_same_identity_prefix(v, id@, i as int);
            }
            return Some(i);
        }
        i = i + 1;
    }
    assert(v.subrange(0, i as int) =~= v);
    None
}

proof fn lemma_same_identity_prefix(s: Seq<OverrideView>, id: IdentityView, i: int)
    requires
        0 <= i < s.len(),
        same_identity_position(s.subrange(0, i), id) == -1,
        s[i].identity == id,
    ensures
        same_identity_position(s, id) == i,
    decreases s.len(),
{
    if i < s.len() - 1 {
        assert(s.drop_last().subrange(0, i) =~= s.subrange(0, i));
        assert(s.drop_last()[i] == s[i]);
        lemma_same_identity_prefix(s.drop_last(), id, i);
    } else {
        assert(s.drop_last() =~= s.subrange(0, i));
    }
}

proof fn lemma_same_identity_bounds(s: Seq<OverrideView>, id: IdentityView)
    ensures
        -1 <= same_identity_position(s, id) < s.len(),
    decreases s.len(),
{
    if s.len() > 0 {
        lemma_same_identity_bounds(s.drop_last(), id);
    }
}

/// Merges override lists: each new override merges into the first one of
/// the same identity, or is appended.
fn merge_overrides(base: &mut Vec<Override>, news: &Vec<Override>)
    ensures
        overrides_view(final(base)@) == merge_overrides_spec(overrides_view(old(base)@), overrides_view(news@)),
{
    let ghost start = overrides_view(base@);
    let mut i: usize = 0;
    while i < news.len()
        invariant
            i <= news@.len(),
            overrides_view(base@) == merge_overrides_spec(start, overrides_view(news@).subrange(0, i as int)),
        decreases news.len() - i,
    {
        let ghost before = overrides_view(base@);
        let ghost sub = overrides_view(news@).subrange(0, i + 1);
        proof {
            assert(sub.drop_last() =~= overrides_view(news@).subrange(0, i as int));
            assert(sub.last() == news@[i as int]@);
            lemma_same_identity_bounds(before, news@[i as int].identity@);
        }
        match find_same_identity(base, &news[i].identity) {
            Some(p) => {
                let mut e = copy_override(&base[p]);
                merge_override_into(&mut e, &news[i]);
                let ghost old_base = base@;
                base.set(p, e);
                proof {
                    assert(overrides_view(base@) =~= before.update(p as int, merge_override(before[p as int], news@[i as int]@)));
                }
            },
            None => {
                let n = copy_override(&news[i]);
                let ghost old_base = base@;
                base.push(n);
                proof {
                    assert(overrides_view(base@) =~= before.push(news@[i as int]@));
                }
            },
        }
        i = i + 1;
    }
    assert(overrides_view(news@).subrange(0, i as int) =~= overrides_view(news@));
}

/// Settings `over` merged into `base`, which keeps its cache settings.
fn merge_from(base: Config, over: &Config, force: bool) -> (r: Config)
    ensures
        settings_view(r) == merge_settings(settings_view(base), settings_view(*over), force),
        r.cache_enabled == base.cache_enabled,
        r.cache_dir == base.cache_dir,
{
    let mut b = base;
    if over.command.is_some() {
        b.command = clone_opt(&over.command);
    }
    if over.subcommand.is_some() {
        b.subcommand = clone_opt(&over.subcommand);
    }
    if over.channel.is_some() {
        b.channel = clone_opt(&over.channel);
    }
    if over.package.is_some() {
        b.package = clone_opt(&over.package);
    }
    merge_list_into(&mut b.extra_args, &over.extra_args, force);
    merge_list_into(&mut b.extra_test_binary_args, &over.extra_test_binary_args, force);
    merge_env_into(&mut b.env, &over.env, force);
    if over.test_frameworks.is_some() {
        b.test_frameworks = copy_framework(&over.test_frameworks);
    }
    if over.binary_framework.is_some() {
        b.binary_framework = copy_framework(&over.binary_framework);
    }
    merge_overrides(&mut b.overrides, &over.overrides);
    if over.linked_projects.is_some() {
        b.linked_projects = copy_list(&over.linked_projects);
    }
    b
}

/// The settings of the levels that are present, merged root first.
pub open spec fn merged_levels(root: Option<Config>, workspace: Option<Config>, package: Option<Config>) -> SettingsView {
    let a = match root {
        Some(c) => merge_settings(empty_settings(), settings_view(c), false),
        None => empty_settings(),
    };
    let b = match workspace {
        Some(c) => merge_settings(a, settings_view(c), false),
        None => a,
    };
    match package {
        Some(c) => merge_settings(b, settings_view(c), false),
        None => b,
    }
}

/// The most specific level that sets the command, subcommand, channel or
/// package name decides it: the package level over the workspace level over
/// the root level; a level that leaves one unset keeps what the levels below
/// it set.
pub proof fn lemma_most_specific_level_wins(root: Option<Config>, workspace: Option<Config>, package: Option<Config>)
    ensures
        ({
            let m = merged_levels(root, workspace, package);
            let top = |c: Option<Config>, f: spec_fn(SettingsView) -> Option<Seq<char>>| match c {
                Some(x) => f(settings_view(x)),
                None => None,
            };
            let pick = |f: spec_fn(SettingsView) -> Option<Seq<char>>| if top(package, f) is Some {
                top(package, f)
            } else if top(workspace, f) is Some {
                top(workspace, f)
            } else {
                top(root, f)
            };
            &&& m.command == pick(|v: SettingsView| v.command)
            &&& m.subcommand == pick(|v: SettingsView| v.subcommand)
            &&& m.channel == pick(|v: SettingsView| v.channel)
            &&& m.package == pick(|v: SettingsView| v.package)
        }),
{
}

/// Without forcing, argument lists accumulate across the levels: the root
/// level's arguments, then the workspace level's, then the package level's.
pub proof fn lemma_level_args_accumulate(root: Config, workspace: Config, package: Config)
    requires
        root.extra_args is Some,
        workspace.extra_args is Some,
        package.extra_args is Some,
    ensures
        merged_levels(Some(root), Some(workspace), Some(package)).extra_args == Some(
            opt_strings_view(root.extra_args)->0 + opt_strings_view(workspace.extra_args)->0
                + opt_strings_view(package.extra_args)->0,
        ),
{
}

/// Merging an override into the one for the same function, each setting
/// the newer (more specific) override gives wins and each it leaves unset
/// keeps the older value: the command, subcommand, channel, test framework
/// and both forcing flags. The identity stays that of the older override.
pub proof fn lemma_newer_override_settings_win(e: OverrideView, n: OverrideView)
    ensures
        ({
            let m = merge_override(e, n);
            &&& m.identity == e.identity
            &&& (n.command is Some ==> m.command == n.command)
            &&& (n.command is None ==> m.command == e.command)
            &&& (n.subcommand is Some ==> m.subcommand == n.subcommand)
            &&& (n.subcommand is None ==> m.subcommand == e.subcommand)
            &&& (n.channel is Some ==> m.channel == n.channel)
            &&& (n.channel is None ==> m.channel == e.channel)
            &&& (n.test_framework is Some ==> m.test_framework == n.test_framework)
            &&& (n.test_framework is None ==> m.test_framework == e.test_framework)
            &&& (n.force_replace_args is Some ==> m.force_replace_args == n.force_replace_args)
            &&& (n.force_replace_args is None ==> m.force_replace_args == e.force_replace_args)
            &&& (n.force_replace_env is Some ==> m.force_replace_env == n.force_replace_env)
            &&& (n.force_replace_env is None ==> m.force_replace_env == e.force_replace_env)
        }),
{
}

/// Merging an override into the one for the same function, an argument list
/// the newer override leaves unset is kept; one it sets replaces the older
/// list when it forces replacement, and otherwise follows the older list
/// (a missing older list counts as empty).
pub proof fn lemma_override_lists_merge(e: OverrideView, n: OverrideView)
    ensures
        ({
            let m = merge_override(e, n);
            let forced = n.force_replace_args == Some(true);
            &&& (n.extra_args is None ==> m.extra_args == e.extra_args)
            &&& (n.extra_args is Some && forced ==> m.extra_args == n.extra_args)
            &&& (n.extra_args is Some && !forced ==> m.extra_args == Some(
                e.extra_args.unwrap_or(Seq::empty()) + n.extra_args->0,
            ))
            &&& (n.extra_test_binary_args is None ==> m.extra_test_binary_args == e.extra_test_binary_args)
            &&& (n.extra_test_binary_args is Some && forced ==> m.extra_test_binary_args == n.extra_test_binary_args)
            &&& (n.extra_test_binary_args is Some && !forced ==> m.extra_test_binary_args == Some(
                e.extra_test_binary_args.unwrap_or(Seq::empty()) + n.extra_test_binary_args->0,
            ))
        }),
{
    let m = merge_override(e, n);
    if n.extra_args is Some && n.force_replace_args != Some(true) && e.extra_args is None {
        assert(Seq::<Seq<char>>::empty() + n.extra_args->0 =~= n.extra_args->0);
    }
    if n.extra_test_binary_args is Some && n.force_replace_args != Some(true) && e.extra_test_binary_args is None {
        assert(Seq::<Seq<char>>::empty() + n.extra_test_binary_args->0 =~= n.extra_test_binary_args->0);
    }
}

/// The first override with an identity is found at its position.
pub proof fn lemma_same_identity_first(s: Seq<OverrideView>, id: IdentityView, p: int)
    requires
        0 <= p < s.len(),
        s[p].identity == id,
        forall|i: int| 0 <= i < p ==> s[i].identity != id,
    ensures
        same_identity_position(s, id) == p,
    decreases s.len(),
{
    if p < s.len() - 1 {
        lemma_same_identity_first(s.drop_last(), id, p);
    } else {
        lemma_same_identity_absent(s.drop_last(), id);
    }
}

/// No override has the identity: none is found.
pub proof fn lemma_same_identity_absent(s: Seq<OverrideView>, id: IdentityView)
    requires
        forall|i: int| 0 <= i < s.len() ==> s[i].identity != id,
    ensures
        same_identity_position(s, id) == -1,
    decreases s.len(),
{
    if s.len() > 0 {
        lemma_same_identity_absent(s.drop_last(), id);
    }
}

/// An override merged into a list of overrides merges into the first one
/// for the same function, leaving the others and the list's length as they
/// were; with no override for that function it is added at the end.
pub proof fn lemma_override_merged_by_identity(base: Seq<OverrideView>, n: OverrideView)
    ensures
        forall|p: int|
            0 <= p < base.len() && base[p].identity == n.identity && (forall|i: int|
                0 <= i < p ==> base[i].identity != n.identity) ==> #[trigger] merge_overrides_spec(base, seq![n])
                == base.update(p, merge_override(base[p], n)),
        (forall|i: int| 0 <= i < base.len() ==> base[i].identity != n.identity) ==> merge_overrides_spec(
            base,
            seq![n],
        ) == base.push(n),
{
    let news = seq![n];
    assert(news.drop_last() =~= Seq::<OverrideView>::empty());
    assert(merge_overrides_spec(base, news.drop_last()) == base);
    assert forall|p: int|
        0 <= p < base.len() && base[p].identity == n.identity && (forall|i: int|
            0 <= i < p ==> base[i].identity != n.identity) implies #[trigger] merge_overrides_spec(base, seq![n])
            == base.update(p, merge_override(base[p], n)) by {
        lemma_same_identity_first(base, n.identity, p);
    }
    if forall|i: int| 0 <= i < base.len() ==> base[i].identity != n.identity {
        lemma_same_identity_absent(base, n.identity);
    }
}

/// Overrides for the same function at the root and package levels merge
/// into one override, whose command, subcommand and channel are those the
/// package level's override sets, and otherwise those of the root level's.
pub proof fn lemma_level_overrides_merge(root: Config, package: Config)
    requires
        root.overrides@.len() == 1,
        package.overrides@.len() == 1,
        root.overrides@[0]@.identity == package.overrides@[0]@.identity,
    ensures
        ({
            let o = root.overrides@[0]@;
            let n = package.overrides@[0]@;
            let m = merged_levels(Some(root), None, Some(package)).overrides;
            &&& m.len() == 1
            &&& m[0] == merge_override(o, n)
            &&& m[0].command == (if n.command is Some { n.command } else { o.command })
            &&& m[0].subcommand == (if n.subcommand is Some { n.subcommand } else { o.subcommand })
            &&& m[0].channel == (if n.channel is Some { n.channel } else { o.channel })
        }),
{
    let o = root.overrides@[0]@;
    let n = package.overrides@[0]@;
    let rv = overrides_view(root.overrides@);
    let pv = overrides_view(package.overrides@);
    assert(rv =~= seq![o]);
    assert(pv =~= seq![n]);
    lemma_override_merged_by_identity(Seq::empty(), o);
    assert(Seq::<OverrideView>::empty().push(o) =~= seq![o]);
    lemma_override_merged_by_identity(seq![o], n);
    assert(merge_overrides_spec(seq![o], seq![n]) == seq![o].update(0, merge_override(o, n)));
    assert(seq![o].update(0, merge_override(o, n)) =~= seq![merge_override(o, n)]);
}

impl ConfigMerger {
    /// A merger with no settings loaded.
    pub fn new() -> (r: Self)
        ensures
            r.root_config is None && r.workspace_config is None && r.package_config is None,
            r.config_info.root_config_path is None,
            r.config_info.workspace_config_path is None,
            r.config_info.package_config_path is None,
    {
        ConfigMerger {
            root_config: None,
            workspace_config: None,
            package_config: None,
            config_info: ConfigInfo { root_config_path: None, workspace_config_path: None, package_config_path: None },
        }
    }

    /// Merge two settings: `override_config` on top of `base`, replacing
    /// lists and variables instead of extending them when `force_replace`.
    pub fn merge_configs(&self, base: Config, override_config: Config, force_replace: bool) -> (r: Config)
        ensures
            settings_view(r) == merge_settings(settings_view(base), settings_view(override_config), force_replace),
            r.cache_enabled == base.cache_enabled,
            r.cache_dir == base.cache_dir,
    {
        merge_from(base, &override_config, force_replace)
    }

    /// The settings of the root, workspace and package levels merged in
    /// that order, starting from empty settings.
    pub fn get_merged_config(&self) -> (r: Config)
        ensures
            settings_view(r) == merged_levels(self.root_config, self.workspace_config, self.package_config),
    {
        let mut config = Config::default();
        proof {
            assert(overrides_view(config.overrides@) =~= Seq::<OverrideView>::empty());
            assert(settings_view(config) == empty_settings());
        }
        match &self.root_config {
            Some(root) => config = merge_from(config, root, false),
            None => {},
        }
        match &self.workspace_config {
            Some(ws) => config = merge_from(config, ws, false),
            None => {},
        }
        match &self.package_config {
            Some(pkg) => config = merge_from(config, pkg, false),
            None => {},
        }
        config
    }

    /// Which settings files were loaded.
    pub fn get_config_info(&self) -> (r: &ConfigInfo)
        ensures
            r == &self.config_info,
    {
        &self.config_info
    }

    /// Records the settings found at the root level and their file.
    pub fn set_root_config(&mut self, path: String, config: Config)
        ensures
            final(self).root_config == Some(config),
            final(self).config_info.root_config_path == Some(path),
            final(self).workspace_config == old(self).workspace_config,
            final(self).package_config == old(self).package_config,
            final(self).config_info.workspace_config_path == old(self).config_info.workspace_config_path,
            final(self).config_info.package_config_path == old(self).config_info.package_config_path,
    {
        self.root_config = Some(config);
        self.config_info.root_config_path = Some(path);
    }

    /// Records the settings found at the workspace level and their file.
    pub fn set_workspace_config(&mut self, path: String, config: Config)
        ensures
            final(self).workspace_config == Some(config),
            final(self).config_info.workspace_config_path == Some(path),
            final(self).root_config == old(self).root_config,
            final(self).package_config == old(self).package_config,
            final(self).config_info.root_config_path == old(self).config_info.root_config_path,
            final(self).config_info.package_config_path == old(self).config_info.package_config_path,
    {
        self.workspace_config = Some(config);
        self.config_info.workspace_config_path = Some(path);
    }

    /// Records the settings found at the package level and their file.
    pub fn set_package_config(&mut self, path: String, config: Config)
        ensures
            final(self).package_config == Some(config),
            final(self).config_info.package_config_path == Some(path),
            final(self).root_config == old(self).root_config,
            final(self).workspace_config == old(self).workspace_config,
            final(self).config_info.root_config_path == old(self).config_info.root_config_path,
            final(self).config_info.workspace_config_path == old(self).config_info.workspace_config_path,
    {
        self.package_config = Some(config);
        self.config_info.package_config_path = Some(path);
    }
}

} // verus!
