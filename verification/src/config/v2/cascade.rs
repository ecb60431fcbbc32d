//! What merging layers guarantees: the most specific layer that names a
//! strategy or a build system decides it, argument lists accumulate in order,
//! and every variable takes the value of the last layer that sets it.
use vstd::prelude::*;
use crate::build_system::BuildSystem;
use crate::config::v2::layer::{ArgsView, LayerView, apply_layer};
use crate::config::v2::resolver::{fold_layers, framework_name};
use crate::config::v2::scope::{Scope, ScopeContext};
use crate::config::v2::strategy::FrameworkKind;
use crate::env::{EnvView, env_map, env_insert_all, lemma_env_insert_map};
use crate::strings::is_prefix;

verus! {

/// The strategy named for a kind by the last layer that names one, or by `base`.
pub open spec fn last_named(base: LayerView, ls: Seq<LayerView>, kind: FrameworkKind) -> Option<Seq<char>>
    decreases ls.len(),
{
    if ls.len() == 0 {
        framework_name(base, kind)
    } else if framework_name(ls.last(), kind) is Some {
        framework_name(ls.last(), kind)
    } else {
        last_named(base, ls.drop_last(), kind)
    }
}

/// The build system of the last layer that sets one, or that of `base`.
pub open spec fn last_build_system(base: LayerView, ls: Seq<LayerView>) -> Option<BuildSystem>
    decreases ls.len(),
{
    if ls.len() == 0 {
        base.build_system
    } else if ls.last().build_system is Some {
        ls.last().build_system
    } else {
        last_build_system(base, ls.drop_last())
    }
}

/// The variables of `base` overridden by those of each layer in turn.
pub open spec fn env_union(base: Map<Seq<char>, Seq<char>>, ls: Seq<LayerView>) -> Map<Seq<char>, Seq<char>>
    decreases ls.len(),
{
    if ls.len() == 0 {
        base
    } else {
        env_union(base, ls.drop_last()).union_prefer_right(env_map(ls.last().env))
    }
}

/// The test arguments of every layer that sets some, in order.
pub open spec fn all_test_args(ls: Seq<LayerView>) -> Seq<Seq<char>>
    decreases ls.len(),
{
    if ls.len() == 0 {
        Seq::empty()
    } else {
        all_test_args(ls.drop_last()) + ls.last().args.test.unwrap_or(Seq::empty())
    }
}

/// One of the argument lists of a layer that extend across layers.
pub enum ArgList {
    All,
    Test,
    Binary,
    Benchmark,
    Build,
}

/// The list `which` of a layer's arguments.
pub open spec fn arg_list(a: ArgsView, which: ArgList) -> Option<Seq<Seq<char>>> {
    match which {
        ArgList::All => a.all,
        ArgList::Test => a.test,
        ArgList::Binary => a.binary,
        ArgList::Benchmark => a.benchmark,
        ArgList::Build => a.build,
    }
}

/// The list `which` of every layer that sets it, in order, joined.
pub open spec fn accumulated_args(ls: Seq<LayerView>, which: ArgList) -> Seq<Seq<char>>
    decreases ls.len(),
{
    if ls.len() == 0 {
        Seq::empty()
    } else {
        accumulated_args(ls.drop_last(), which) + arg_list(ls.last().args, which).unwrap_or(Seq::empty())
    }
}

/// The arguments for test binaries of every layer that sets some, most
/// specific layer first.
pub open spec fn stacked_test_binary_args(ls: Seq<LayerView>) -> Seq<Seq<char>>
    decreases ls.len(),
{
    if ls.len() == 0 {
        Seq::empty()
    } else {
        ls.last().args.test_binary.unwrap_or(Seq::empty()) + stacked_test_binary_args(ls.drop_last())
    }
}

/// Setting the pairs of `other` in order sets the mapping they describe on top.
pub proof fn lemma_env_insert_all_map(e: EnvView, other: EnvView)
    ensures
        env_map(env_insert_all(e, other)) == env_map(e).union_prefer_right(env_map(other)),
    decreases other.len(),
{
    if other.len() == 0 {
        assert(env_map(e).union_prefer_right(env_map(other)) =~= env_map(e));
    } else {
        let prev = env_insert_all(e, other.drop_last());
        lemma_env_insert_all_map(e, other.drop_last());
        lemma_env_insert_map(prev, other.last().0, other.last().1);
        assert(env_map(e).union_prefer_right(env_map(other.drop_last())).insert(other.last().0, other.last().1)
            =~= env_map(e).union_prefer_right(env_map(other)));
    }
}

/// Merging layers, the strategy for a kind of command is the one named by
/// the last layer that names one (layers are merged from least to most
/// specific, so the most specific such layer decides).
pub proof fn lemma_last_strategy_wins(base: LayerView, ls: Seq<LayerView>, kind: FrameworkKind)
    ensures
        framework_name(fold_layers(base, ls), kind) == last_named(base, ls, kind),
    decreases ls.len(),
{
    if ls.len() > 0 {
        lemma_last_strategy_wins(base, ls.drop_last(), kind);
    }
}

/// Merging layers, the build system is the one set by the last layer that sets one.
pub proof fn lemma_last_build_system_wins(base: LayerView, ls: Seq<LayerView>)
    ensures
        fold_layers(base, ls).build_system == last_build_system(base, ls),
    decreases ls.len(),
{
    if ls.len() > 0 {
        lemma_last_build_system_wins(base, ls.drop_last());
    }
}

/// Merging layers, every environment variable takes the value given by the
/// last layer that sets it; variables no layer sets keep their base value.
pub proof fn lemma_env_last_wins(base: LayerView, ls: Seq<LayerView>)
    ensures
        env_map(fold_layers(base, ls).env) == env_union(env_map(base.env), ls),
    decreases ls.len(),
{
    if ls.len() > 0 {
        lemma_env_last_wins(base, ls.drop_last());
        lemma_env_insert_all_map(fold_layers(base, ls.drop_last()).env, ls.last().env);
    }
}

/// Merging layers from one that sets no test arguments, the test arguments
/// are those of every layer, in order; none are dropped.
pub proof fn lemma_test_args_accumulate(base: LayerView, ls: Seq<LayerView>)
    requires
        base.args.test is None,
    ensures
        fold_layers(base, ls).args.test.unwrap_or(Seq::empty()) == all_test_args(ls),
    decreases ls.len(),
{
    if ls.len() > 0 {
        lemma_test_args_accumulate(base, ls.drop_last());
        let prev = fold_layers(base, ls.drop_last()).args.test;
        if ls.last().args.test is None {
            assert(all_test_args(ls) =~= all_test_args(ls.drop_last()));
        }
    }
}

/// Merging layers from one that sets none of them, each argument list that
/// extends (the arguments for every command, for tests, binaries,
/// benchmarks and builds) is the concatenation, least specific layer first,
/// of that list of every layer that sets it: a more specific layer adds its
/// arguments after those of the layers below it and drops none of them.
pub proof fn lemma_args_accumulate(base: LayerView, ls: Seq<LayerView>, which: ArgList)
    requires
        arg_list(base.args, which) is None,
    ensures
        arg_list(fold_layers(base, ls).args, which).unwrap_or(Seq::empty()) == accumulated_args(ls, which),
    decreases ls.len(),
{
    if ls.len() > 0 {
        lemma_args_accumulate(base, ls.drop_last(), which);
        if arg_list(ls.last().args, which) is None {
            assert(accumulated_args(ls, which) =~= accumulated_args(ls.drop_last(), which));
        }
    }
}

/// Merging layers from one that sets no arguments for test binaries, those
/// arguments are the ones of every layer that sets some, the most specific
/// layer's first; none are dropped.
pub proof fn lemma_test_binary_args_stack(base: LayerView, ls: Seq<LayerView>)
    requires
        base.args.test_binary is None,
    ensures
        fold_layers(base, ls).args.test_binary.unwrap_or(Seq::empty()) == stacked_test_binary_args(ls),
    decreases ls.len(),
{
    if ls.len() > 0 {
        lemma_test_binary_args_stack(base, ls.drop_last());
        if ls.last().args.test_binary is None {
            assert(stacked_test_binary_args(ls) =~= stacked_test_binary_args(ls.drop_last()));
        }
    }
}

/// Merging two layers over one that sets no arguments for every command,
/// the arguments for every command are those of the lower layer followed
/// by those of the upper one, whenever both set some.
pub proof fn lemma_all_args_two_layers(base: LayerView, lower: LayerView, upper: LayerView)
    requires
        base.args.all is None,
        lower.args.all is Some,
        upper.args.all is Some,
    ensures
        fold_layers(base, seq![lower, upper]).args.all == Some(lower.args.all->0 + upper.args.all->0),
{
    let ls = seq![lower, upper];
    assert(ls.drop_last() =~= seq![lower]);
    assert(seq![lower].drop_last() =~= Seq::<LayerView>::empty());
    assert(fold_layers(base, Seq::<LayerView>::empty()) == base);
    assert(fold_layers(base, seq![lower]).args.all == Some(lower.args.all->0));
}

/// The workspace scope applies everywhere.
pub proof fn lemma_workspace_matches_all(ctx: ScopeContext)
    ensures
        Scope::Workspace.matches_spec(ctx),
{
}

/// A module scope applies to the contexts of its submodules: when module
/// `m::sub` is in scope, so is `m`.
pub proof fn lemma_module_scope_covers_submodules(m: String, ctx: ScopeContext, sub: Seq<char>)
    requires
        ctx.mod_path matches Some(p) && p@ == m@ + "::"@ + sub,
    ensures
        Scope::Module(m).matches_spec(ctx),
{
    let p = ctx.mod_path->0;
    assert(p@.subrange(0, (m@ + "::"@).len() as int) =~= m@ + "::"@);
    assert(is_prefix(m@ + "::"@, p@));
}

/// Scopes are ordered from the workspace to a method by increasing specificity.
pub proof fn lemma_specificity_order(a: String, b: String, c: String, d: String, e: String, f: String)
    ensures
        Scope::Workspace.rank() < Scope::Crate(a).rank(),
        Scope::Crate(a).rank() < Scope::File(b).rank(),
        Scope::File(b).rank() < Scope::Module(c).rank(),
        Scope::Module(c).rank() < Scope::Type(d).rank(),
        Scope::Type(d).rank() < Scope::Function(e).rank(),
        Scope::Function(e).rank() < Scope::Method(f).rank(),
{
}

} // verus!
