//! Choosing, among the targets of a BUILD file, those that build a source
//! file and the one to run for it.
use vstd::prelude::*;
use crate::bazel::{BazelTarget, BazelTargetKind, BazelTargetView, targets_view};
use crate::command::builder::bazel::target_detection::crate_name;
use crate::error::Error;
use crate::paths::{components, path_components};
use crate::strings::{
    concat2, concat3, contains, contains_char, ends_with, find, find_from, first_occurrence_from, has_char,
    index_of, is_prefix, is_suffix, lemma_index_of, occurs_at, occurs_from, seq_contains, slice, slice_from,
    starts_with, str_eq,
};

verus! {

/// The text before the single occurrence of `sep` in `p`, and the text
/// after it, when `sep` occurs in `p` exactly once (as `split` finds it).
pub open spec fn split_once(p: Seq<char>, sep: Seq<char>) -> Option<(Seq<char>, Seq<char>)> {
    if seq_contains(p, sep) && !occurs_from(p, sep, index_of(p, sep) + sep.len()) {
        Some((p.subrange(0, index_of(p, sep)), p.subrange(index_of(p, sep) + sep.len(), p.len() as int)))
    } else {
        None
    }
}

/// The `dir/*.ext` case applies: the file starts with `dir/` and ends with `.ext`.
pub open spec fn dir_ext_case(f: Seq<char>, p: Seq<char>) -> bool {
    match split_once(p, "/*."@) {
        Some((dir, ext)) => is_prefix(dir + "/"@, f) && is_suffix("."@ + ext, f),
        None => false,
    }
}

/// The `dir/**/*.rs` case applies: the file starts with `dir/`.
pub open spec fn deep_rs_case(f: Seq<char>, p: Seq<char>) -> bool {
    match split_once(p, "/**/"@) {
        Some((dir, file_pattern)) => is_prefix(dir + "/"@, f) && file_pattern == "*.rs"@,
        None => false,
    }
}

/// In the `dir/*.ext` case, what lies between `dir/` and `.ext` is long
/// enough to cut out (it is not when the two overlap in the file name).
pub open spec fn glob_defined(f: Seq<char>, p: Seq<char>) -> bool {
    if p == "tests/**"@ || p == "**/*.rs"@ || p == "*.rs"@ {
        true
    } else if dir_ext_case(f, p) {
        let (dir, ext) = split_once(p, "/*."@)->0;
        f.len() - dir.len() - 1 >= ext.len() + 1
    } else {
        true
    }
}

/// Whether file `f` (relative to its BUILD file) matches source pattern
/// `p`: `tests/**` and `dir/**` take everything below the directory,
/// `**/*.rs` every `.rs` file, `*.rs` the `.rs` files of the directory
/// itself, `dir/*.ext` the files of that extension directly in `dir`, and
/// `dir/**/*.rs` the `.rs` files at any depth below `dir`.
pub open spec fn glob_matches(f: Seq<char>, p: Seq<char>) -> bool {
    if p == "tests/**"@ {
        is_prefix("tests/"@, f)
    } else if p == "**/*.rs"@ {
        is_suffix(".rs"@, f)
    } else if p == "*.rs"@ {
        is_suffix(".rs"@, f) && !has_char(f, '/')
    } else if dir_ext_case(f, p) {
        let (dir, ext) = split_once(p, "/*."@)->0;
        let after = f.subrange(dir.len() + 1int, f.len() as int);
        !has_char(after.subrange(0, after.len() - ext.len() - 1), '/')
    } else if deep_rs_case(f, p) {
        is_suffix(".rs"@, f)
    } else if is_suffix("/**"@, p) {
        is_prefix(p.subrange(0, p.len() - 3) + "/"@, f)
    } else {
        false
    }
}

/// The patterns from `i` on are looked at until one matches, and each
/// looked at can be applied to the file.
pub open spec fn globs_defined_from(srcs: Seq<Seq<char>>, f: Seq<char>, i: int) -> bool
    decreases srcs.len() - i,
{
    if i >= srcs.len() {
        true
    } else if has_char(srcs[i], '*') {
        glob_defined(f, srcs[i]) && (glob_matches(f, srcs[i]) || globs_defined_from(srcs, f, i + 1))
    } else {
        globs_defined_from(srcs, f, i + 1)
    }
}

/// Whether a target's sources take in the file, and whether that can be
/// decided: a source names it, or a pattern among the sources matches it.
pub open spec fn includes_defined(t: BazelTargetView, f: Seq<char>) -> bool {
    t.sources.contains(f) || globs_defined_from(t.sources, f, 0)
}

/// A target's sources take in the file.
pub open spec fn includes(t: BazelTargetView, f: Seq<char>) -> bool {
    t.sources.contains(f) || exists|i: int| 0 <= i < t.sources.len() && has_char(t.sources[i], '*') && glob_matches(f, #[trigger] t.sources[i])
}

/// The first position at or after `i` of a target of kind `k`, or -1.
pub open spec fn kind_from(ts: Seq<BazelTargetView>, k: BazelTargetKind, i: int) -> int
    decreases ts.len() - i,
{
    if i >= ts.len() {
        -1
    } else if ts[i].kind == k {
        i
    } else {
        kind_from(ts, k, i + 1)
    }
}

/// The target to run among runnable ones: the first test, else the first
/// test suite, doc test, benchmark or binary, in that order; else the first.
pub open spec fn most_specific(ts: Seq<BazelTargetView>) -> int {
    if kind_from(ts, BazelTargetKind::Test, 0) >= 0 {
        kind_from(ts, BazelTargetKind::Test, 0)
    } else if kind_from(ts, BazelTargetKind::TestSuite, 0) >= 0 {
        kind_from(ts, BazelTargetKind::TestSuite, 0)
    } else if kind_from(ts, BazelTargetKind::DocTest, 0) >= 0 {
        kind_from(ts, BazelTargetKind::DocTest, 0)
    } else if kind_from(ts, BazelTargetKind::Benchmark, 0) >= 0 {
        kind_from(ts, BazelTargetKind::Benchmark, 0)
    } else if kind_from(ts, BazelTargetKind::Binary, 0) >= 0 {
        kind_from(ts, BazelTargetKind::Binary, 0)
    } else if ts.len() > 0 {
        0
    } else {
        -1
    }
}

/// The targets whose sources take in the file, in order.
pub open spec fn direct_matches(all: Seq<BazelTargetView>, f: Seq<char>) -> Seq<BazelTargetView>
    decreases all.len(),
{
    if all.len() == 0 {
        Seq::empty()
    } else {
        direct_matches(all.drop_last(), f) + if includes(all.last(), f) {
            seq![all.last()]
        } else {
            Seq::empty()
        }
    }
}

/// The name of the last library among the targets.
pub open spec fn last_library(ts: Seq<BazelTargetView>) -> Option<Seq<char>>
    decreases ts.len(),
{
    if ts.len() == 0 {
        None
    } else if ts.last().kind == BazelTargetKind::Library {
        Some(ts.last().name)
    } else {
        last_library(ts.drop_last())
    }
}

/// A target of that name is among the targets.
pub open spec fn has_name(ts: Seq<BazelTargetView>, n: Seq<char>) -> bool {
    exists|i: int| 0 <= i < ts.len() && (#[trigger] ts[i]).name == n
}

/// The targets of `all` that refer to the crate `lib`, added in turn to
/// `found` unless one of the same name is there.
pub open spec fn add_referring(found: Seq<BazelTargetView>, all: Seq<BazelTargetView>, lib: Seq<char>) -> Seq<BazelTargetView>
    decreases all.len(),
{
    if all.len() == 0 {
        found
    } else {
        let f = add_referring(found, all.drop_last(), lib);
        let t = all.last();
        if t.crate_ref is Some && crate_name(t.crate_ref->0) == lib && !has_name(f, t.name) {
            f.push(t)
        } else {
            f
        }
    }
}

/// The targets for a file: those whose sources take it in, then those that
/// refer to the last such library.
pub open spec fn targets_for(all: Seq<BazelTargetView>, f: Seq<char>) -> Seq<BazelTargetView> {
    let direct = direct_matches(all, f);
    match last_library(direct) {
        Some(lib) => add_referring(direct, all, lib),
        None => direct,
    }
}

/// The runnable targets of the kind asked for (any kind when none is), in order.
pub open spec fn runnable_of(ts: Seq<BazelTargetView>, k: Option<BazelTargetKind>) -> Seq<BazelTargetView>
    decreases ts.len(),
{
    if ts.len() == 0 {
        Seq::empty()
    } else {
        runnable_of(ts.drop_last(), k) + if ts.last().kind.runnable() && (k is None || k == Some(ts.last().kind)) {
            seq![ts.last()]
        } else {
            Seq::empty()
        }
    }
}

/// The first position at or after `i` of a target of kind `k` referring to
/// the crate `lib`, or -1.
pub open spec fn referring_from(ts: Seq<BazelTargetView>, k: BazelTargetKind, lib: Seq<char>, i: int) -> int
    decreases ts.len() - i,
{
    if i >= ts.len() {
        -1
    } else if ts[i].kind == k && ts[i].crate_ref is Some && crate_name(ts[i].crate_ref->0) == lib {
        i
    } else {
        referring_from(ts, k, lib, i + 1)
    }
}

/// The first position at or after `i` of a binary or library, or -1.
pub open spec fn bin_or_lib_from(ts: Seq<BazelTargetView>, i: int) -> int
    decreases ts.len() - i,
{
    if i >= ts.len() {
        -1
    } else if ts[i].kind == BazelTargetKind::Binary || ts[i].kind == BazelTargetKind::Library {
        i
    } else {
        bin_or_lib_from(ts, i + 1)
    }
}

/// The target to run for a file, given the file's targets and all the
/// targets of its BUILD file: for tests, the first test of the first binary
/// or library among the file's targets; otherwise the most specific of the
/// file's runnable targets of the kind asked for.
pub open spec fn runnable_for(ts: Seq<BazelTargetView>, all: Seq<BazelTargetView>, k: Option<BazelTargetKind>) -> Option<BazelTargetView> {
    let b = bin_or_lib_from(ts, 0);
    let t = if b >= 0 {
        referring_from(all, BazelTargetKind::Test, ts[b].name, 0)
    } else {
        -1
    };
    if k == Some(BazelTargetKind::Test) && t >= 0 {
        Some(all[t])
    } else {
        let r = runnable_of(ts, k);
        if most_specific(r) >= 0 {
            Some(r[most_specific(r)])
        } else {
            None
        }
    }
}

/// The doc test of the first library among the file's targets.
pub open spec fn doc_test_for(ts: Seq<BazelTargetView>, all: Seq<BazelTargetView>) -> Option<BazelTargetView> {
    let l = kind_from(ts, BazelTargetKind::Library, 0);
    if l >= 0 && referring_from(all, BazelTargetKind::DocTest, ts[l].name, 0) >= 0 {
        Some(all[referring_from(all, BazelTargetKind::DocTest, ts[l].name, 0)])
    } else {
        None
    }
}

/// The integration test target of a file under a `tests` directory: the
/// first test suite among its targets.
pub open spec fn integration_test_for(file_path: Seq<char>, ts: Seq<BazelTargetView>) -> Option<BazelTargetView> {
    if components(file_path).contains("tests"@) && kind_from(ts, BazelTargetKind::TestSuite, 0) >= 0 {
        Some(ts[kind_from(ts, BazelTargetKind::TestSuite, 0)])
    } else {
        None
    }
}

/// `package:name`.
pub open spec fn package_label(package: Seq<char>, name: Seq<char>) -> Seq<char> {
    package + ":"@ + name
}

proof fn lemma_kind_from(ts: Seq<BazelTargetView>, k: BazelTargetKind, i: int)
    requires
        0 <= i,
    ensures
        kind_from(ts, k, i) == -1 || (i <= kind_from(ts, k, i) < ts.len() && ts[kind_from(ts, k, i)].kind == k),
    decreases ts.len() - i,
{
    if i < ts.len() && ts[i].kind != k {
        lemma_kind_from(ts, k, i + 1);
    }
}

proof fn lemma_referring_from(ts: Seq<BazelTargetView>, k: BazelTargetKind, lib: Seq<char>, i: int)
    requires
        0 <= i,
    ensures
        referring_from(ts, k, lib, i) == -1 || (i <= referring_from(ts, k, lib, i) < ts.len()),
    decreases ts.len() - i,
{
    if i < ts.len() && !(ts[i].kind == k && ts[i].crate_ref is Some && crate_name(ts[i].crate_ref->0) == lib) {
        lemma_referring_from(ts, k, lib, i + 1);
    }
}

proof fn lemma_bin_or_lib_from(ts: Seq<BazelTargetView>, i: int)
    requires
        0 <= i,
    ensures
        bin_or_lib_from(ts, i) == -1 || (i <= bin_or_lib_from(ts, i) < ts.len()),
    decreases ts.len() - i,
{
    if i < ts.len() && !(ts[i].kind == BazelTargetKind::Binary || ts[i].kind == BazelTargetKind::Library) {
        lemma_bin_or_lib_from(ts, i + 1);
    }
}

/// A copy of some targets.
fn copy_targets(v: &Vec<BazelTarget>) -> (r: Vec<BazelTarget>)
    ensures
        targets_view(r@) == targets_view(v@),
{
    let mut r: Vec<BazelTarget> = Vec::new();
    let mut i: usize = 0;
    while i < v.len()
        invariant
            i <= v.len(),
            r@.len() == i,
            targets_view(r@) == targets_view(v@).subrange(0, i as int),
        decreases v.len() - i,
    {
        let t = v[i].duplicate();
        let ghost old_r = r@;
        r.push(t);
        proof {
            assert forall|j: int| 0 <= j < i + 1 implies targets_view(r@)[j] == targets_view(v@).subrange(0, i + 1)[j] by {
                if j < i {
                    assert(r@[j] == old_r[j]);
                }
            }
        }
        assert(targets_view(r@) =~= targets_view(v@).subrange(0, i + 1));
        i = i + 1;
    }
    assert(targets_view(v@).subrange(0, v.len() as int) =~= targets_view(v@));
    r
}

fn push_target(v: &mut Vec<BazelTarget>, t: BazelTarget)
    ensures
        targets_view(final(v)@) == targets_view(old(v)@).push(t@),
{
    let ghost old_r = v@;
    v.push(t);
    proof {
        assert forall|j: int| 0 <= j < v@.len() implies targets_view(v@)[j] == targets_view(old_r).push(t@)[j] by {
            if j < old_r.len() {
                assert(v@[j] == old_r[j]);
            }
        }
    }
    assert(targets_view(v@) =~= targets_view(old_r).push(t@));
}

/// Finds the targets of a BUILD file that build a source file and the one
/// to run for it.
pub struct BazelTargetFinder;

impl BazelTargetFinder {
    /// A finder.
    pub fn new() -> (r: Result<Self, Error>)
        ensures
            r is Ok,
    {
        Ok(BazelTargetFinder)
    }

    /// Whether file `file_path` (relative to its BUILD file) matches the
    /// source pattern.
    pub fn matches_glob_pattern(&self, file_path: &str, pattern: &str) -> (r: bool)
        requires
            glob_defined(file_path@, pattern@),
        ensures
            r == glob_matches(file_path@, pattern@),
    {
        let f = file_path;
        let p = pattern;
        if str_eq(p, "tests/**") {
            return starts_with(f, "tests/");
        }
        if str_eq(p, "**/*.rs") {
            return ends_with(f, ".rs");
        }
        if str_eq(p, "*.rs") {
            return ends_with(f, ".rs") && !contains_char(f, '/');
        }
        let fn_ = f.unicode_len();
        let pn = p.unicode_len();
        match split_once_exec(p, "/*.") {
            Some((dir, ext)) => {
                let dir_slash = concat2(dir.as_str(), "/");
                let dot_ext = concat2(".", ext.as_str());
                if starts_with(f, dir_slash.as_str()) && ends_with(f, dot_ext.as_str()) {
                    proof {
                        reveal_strlit("/");
                        reveal_strlit(".");
                    }
                    let dn = dir.unicode_len();
                    let en = ext.unicode_len();
                    let after = slice_from(f, dn + 1);
                    let an = after.unicode_len();
                    let inner = slice(after.as_str(), 0, an - en - 1);
                    return !contains_char(inner.as_str(), '/');
                }
            },
            None => {},
        }
        match split_once_exec(p, "/**/") {
            Some((dir, file_pattern)) => {
                let dir_slash = concat2(dir.as_str(), "/");
                if starts_with(f, dir_slash.as_str()) {
                    if str_eq(file_pattern.as_str(), "*.rs") {
                        return ends_with(f, ".rs");
                    }
                }
            },
            None => {},
        }
        if ends_with(p, "/**") {
            proof {
                reveal_strlit("/**");
            }
            let dir = slice(p, 0, pn - 3);
            let dir_slash = concat2(dir.as_str(), "/");
            return starts_with(f, dir_slash.as_str());
        }
        false
    }

    /// Whether a target's sources take in the file: a source names it, or
    /// one of the patterns among the sources matches it.
    pub fn target_includes_file(&self, target: &BazelTarget, file_path: &str) -> (r: bool)
        requires
            includes_defined(target@, file_path@),
        ensures
            r == includes(target@, file_path@),
    {
        let srcs = &target.sources;
        let mut i: usize = 0;
        while i < srcs.len()
            invariant
                i <= srcs@.len(),
                target@.sources == srcs.deep_view(),
                forall|j: int| 0 <= j < i ==> srcs.deep_view()[j] != file_path@,
            decreases srcs.len() - i,
        {
            if str_eq(srcs[i].as_str(), file_path) {
                assert(srcs.deep_view()[i as int] == file_path@);
                assert(target@.sources[i as int] == file_path@);
                assert(target@.sources.contains(file_path@));
                return true;
            }
            i = i + 1;
        }
        assert(!target@.sources.contains(file_path@));
        let mut k: usize = 0;
        while k < srcs.len()
            invariant
                k <= srcs@.len(),
                !target@.sources.contains(file_path@),
                target@.sources == srcs.deep_view(),
                globs_defined_from(target@.sources, file_path@, k as int),
                forall|j: int| 0 <= j < k ==> !(has_char(target@.sources[j], '*') && glob_matches(file_path@, #[trigger] target@.sources[j])),
            decreases srcs.len() - k,
        {
            let s = srcs[k].as_str();
            if contains_char(s, '*') {
                if self.matches_glob_pattern(file_path, s) {
                    return true;
                }
            }
            k = k + 1;
        }
        false
    }

    /// Whether the source pattern can be applied to the file: false only for
    /// a `dir/*.ext` pattern whose `dir/` and `.ext` overlap in the file name.
    pub fn glob_applies(&self, file_path: &str, pattern: &str) -> (r: bool)
        ensures
            r == glob_defined(file_path@, pattern@),
    {
        if str_eq(pattern, "tests/**") || str_eq(pattern, "**/*.rs") || str_eq(pattern, "*.rs") {
            return true;
        }
        match split_once_exec(pattern, "/*.") {
            Some((dir, ext)) => {
                let dir_slash = concat2(dir.as_str(), "/");
                let dot_ext = concat2(".", ext.as_str());
                if starts_with(file_path, dir_slash.as_str()) && ends_with(file_path, dot_ext.as_str()) {
                    proof {
                        reveal_strlit("/");
                        reveal_strlit(".");
                    }
                    let fnn = file_path.unicode_len();
                    let dn = dir.unicode_len();
                    let en = ext.unicode_len();
                    return fnn - dn - 1 >= en + 1;
                }
                true
            },
            None => true,
        }
    }

    /// Whether it can be decided that the target's sources take in the file:
    /// a source names it, or the patterns before the first matching one can
    /// all be applied to it.
    pub fn includes_decidable(&self, target: &BazelTarget, file_path: &str) -> (r: bool)
        ensures
            r == includes_defined(target@, file_path@),
    {
        let srcs = &target.sources;
        let mut i: usize = 0;
        while i < srcs.len()
            invariant
                i <= srcs@.len(),
                target@.sources == srcs.deep_view(),
                forall|j: int| 0 <= j < i ==> srcs.deep_view()[j] != file_path@,
            decreases srcs.len() - i,
        {
            if str_eq(srcs[i].as_str(), file_path) {
                assert(target@.sources[i as int] == file_path@);
                return true;
            }
            i = i + 1;
        }
        assert(!target@.sources.contains(file_path@));
        let mut k: usize = 0;
        while k < srcs.len()
            invariant
                k <= srcs@.len(),
                target@.sources == srcs.deep_view(),
                !target@.sources.contains(file_path@),
                globs_defined_from(target@.sources, file_path@, 0) == globs_defined_from(target@.sources, file_path@, k as int),
            decreases srcs.len() - k,
        {
            let s = srcs[k].as_str();
            assert(target@.sources[k as int] == s@);
            if contains_char(s, '*') {
                if !self.glob_applies(file_path, s) {
                    return false;
                }
                if self.matches_glob_pattern(file_path, s) {
                    return true;
                }
            }
            k = k + 1;
        }
        true
    }

    /// The target to run among runnable ones, by kind: a test, else a test
    /// suite, doc test, benchmark or binary; else the first.
    pub fn find_most_specific_target(&self, targets: Vec<BazelTarget>) -> (r: Option<BazelTarget>)
        ensures
            match r {
                Some(t) => most_specific(targets_view(targets@)) >= 0 && t@ == targets_view(targets@)[most_specific(targets_view(targets@))],
                None => most_specific(targets_view(targets@)) < 0,
            },
    {
        let ghost tv = targets_view(targets@);
        let a = first_of_kind(&targets, BazelTargetKind::Test);
        let b = first_of_kind(&targets, BazelTargetKind::TestSuite);
        let c = first_of_kind(&targets, BazelTargetKind::DocTest);
        let d = first_of_kind(&targets, BazelTargetKind::Benchmark);
        let e = first_of_kind(&targets, BazelTargetKind::Binary);
        let pick = match a {
            Some(i) => Some(i),
            None => match b {
                Some(i) => Some(i),
                None => match c {
                    Some(i) => Some(i),
                    None => match d {
                        Some(i) => Some(i),
                        None => match e {
                            Some(i) => Some(i),
                            None => if targets.len() > 0 {
                                Some(0)
                            } else {
                                None
                            },
                        },
                    },
                },
            },
        };
        match pick {
            Some(i) => Some(targets[i].duplicate()),
            None => None,
        }
    }

    /// The targets whose sources take in the file (`relative` to the BUILD
    /// file's directory), then those that refer to the last such library.
    pub fn targets_for_file(&self, all_targets: &Vec<BazelTarget>, relative: &str) -> (r: Vec<BazelTarget>)
        requires
            forall|i: int| 0 <= i < all_targets@.len() ==> includes_defined(#[trigger] all_targets@[i]@, relative@),
        ensures
            targets_view(r@) == targets_for(targets_view(all_targets@), relative@),
    {
        let ghost av = targets_view(all_targets@);
        let mut matching: Vec<BazelTarget> = Vec::new();
        let mut library_name: Option<String> = None;
        let mut i: usize = 0;
        assert(av.subrange(0, 0) =~= Seq::<BazelTargetView>::empty());
        assert(targets_view(matching@) =~= Seq::<BazelTargetView>::empty());
        while i < all_targets.len()
            invariant
                i <= all_targets@.len(),
                av == targets_view(all_targets@),
                forall|j: int| 0 <= j < all_targets@.len() ==> includes_defined(#[trigger] all_targets@[j]@, relative@),
                targets_view(matching@) == direct_matches(av.subrange(0, i as int), relative@),
                crate::types::opt_view(library_name) == last_library(targets_view(matching@)),
            decreases all_targets.len() - i,
        {
            let ghost sub = av.subrange(0, i + 1);
            assert(sub.drop_last() =~= av.subrange(0, i as int));
            assert(sub.last() == all_targets@[i as int]@);
            let ghost before = targets_view(matching@);
            if self.target_includes_file(&all_targets[i], relative) {
                push_target(&mut matching, all_targets[i].duplicate());
                if all_targets[i].kind == BazelTargetKind::Library {
                    library_name = Some(all_targets[i].name.clone());
                }
                assert(targets_view(matching@).drop_last() =~= before);
            } else {
                assert(before + Seq::<BazelTargetView>::empty() =~= before);
            }
            i = i + 1;
        }
        assert(av.subrange(0, all_targets@.len() as int) =~= av);
        match library_name {
            None => matching,
            Some(lib) => {
                let ghost direct = targets_view(matching@);
                let mut k: usize = 0;
                assert(av.subrange(0, 0) =~= Seq::<BazelTargetView>::empty());
                while k < all_targets.len()
                    invariant
                        k <= all_targets@.len(),
                        av == targets_view(all_targets@),
                        targets_view(matching@) == add_referring(direct, av.subrange(0, k as int), lib@),
                    decreases all_targets.len() - k,
                {
                    let ghost sub = av.subrange(0, k + 1);
                    assert(sub.drop_last() =~= av.subrange(0, k as int));
                    assert(sub.last() == all_targets@[k as int]@);
                    let refers = match &all_targets[k].crate_ref {
                        Some(c) => {
                            let n = strip_colon(c.as_str());
                            str_eq(n.as_str(), lib.as_str())
                        },
                        None => false,
                    };
                    if refers && !has_target_named(&matching, all_targets[k].name.as_str()) {
                        push_target(&mut matching, all_targets[k].duplicate());
                    }
                    k = k + 1;
                }
                assert(av.subrange(0, all_targets@.len() as int) =~= av);
                matching
            },
        }
    }

    /// The target to run for a file, from the file's targets and all the
    /// targets of its BUILD file.
    pub fn runnable_target(&self, targets: Vec<BazelTarget>, all_targets: &Vec<BazelTarget>, kind_filter: Option<BazelTargetKind>) -> (r: Option<BazelTarget>)
        ensures
            match r {
                Some(t) => runnable_for(targets_view(targets@), targets_view(all_targets@), kind_filter) == Some(t@),
                None => runnable_for(targets_view(targets@), targets_view(all_targets@), kind_filter) is None,
            },
    {
        let ghost tv = targets_view(targets@);
        let ghost av = targets_view(all_targets@);
        proof {
            lemma_bin_or_lib_from(tv, 0);
        }
        let b = bin_or_lib_index(&targets);
        let t = match b {
            Some(bi) => {
                proof {
                    assert(tv[bi as int].name == targets@[bi as int].name@);
                    lemma_referring_from(av, BazelTargetKind::Test, tv[bi as int].name, 0);
                }
                referring_index(all_targets, BazelTargetKind::Test, targets[bi].name.as_str())
            },
            None => None,
        };
        if kind_filter == Some(BazelTargetKind::Test) {
            match t {
                Some(ti) => {
                    return Some(all_targets[ti].duplicate());
                },
                None => {},
            }
        }
        let runnable = runnable_only(&targets, kind_filter);
        self.find_most_specific_target(runnable)
    }

    /// The doc test of the first library among a file's targets.
    pub fn doc_test_target(&self, targets: &Vec<BazelTarget>, all_targets: &Vec<BazelTarget>) -> (r: Option<BazelTarget>)
        ensures
            match r {
                Some(t) => doc_test_for(targets_view(targets@), targets_view(all_targets@)) == Some(t@),
                None => doc_test_for(targets_view(targets@), targets_view(all_targets@)) is None,
            },
    {
        let ghost tv = targets_view(targets@);
        let ghost av = targets_view(all_targets@);
        match first_of_kind(targets, BazelTargetKind::Library) {
            Some(l) => {
                proof {
                    assert(tv[l as int].name == targets@[l as int].name@);
                    lemma_referring_from(av, BazelTargetKind::DocTest, tv[l as int].name, 0);
                }
                match referring_index(all_targets, BazelTargetKind::DocTest, targets[l].name.as_str()) {
                    Some(d) => Some(all_targets[d].duplicate()),
                    None => None,
                }
            },
            None => None,
        }
    }

    /// The integration test target of a file under a `tests` directory.
    pub fn integration_test_target(&self, file_path: &str, targets: &Vec<BazelTarget>) -> (r: Option<BazelTarget>)
        ensures
            match r {
                Some(t) => integration_test_for(file_path@, targets_view(targets@)) == Some(t@),
                None => integration_test_for(file_path@, targets_view(targets@)) is None,
            },
    {
        let comps = path_components(file_path);
        let mut in_tests = false;
        let mut i: usize = 0;
        while i < comps.len()
            invariant
                i <= comps@.len(),
                comps.deep_view() == components(file_path@),
                in_tests == exists|j: int| 0 <= j < i && comps.deep_view()[j] == "tests"@,
            decreases comps.len() - i,
        {
            let is_tests = str_eq(comps[i].as_str(), "tests");
            assert(comps.deep_view()[i as int] == comps@[i as int]@);
            if is_tests {
                in_tests = true;
            }
            proof {
                if in_tests {
                    if is_tests {
                        assert(comps.deep_view()[i as int] == "tests"@);
                    }
                } else {
                    assert forall|j: int| 0 <= j < i + 1 implies comps.deep_view()[j] != "tests"@ by {
                        if j == i {
                        }
                    }
                }
            }
            i = i + 1;
        }
        if !in_tests {
            return None;
        }
        match first_of_kind(targets, BazelTargetKind::TestSuite) {
            Some(s) => Some(targets[s].duplicate()),
            None => None,
        }
    }

    /// The targets with their labels set to `package:name`.
    pub fn with_package_labels(&self, targets: Vec<BazelTarget>, package_path: &str) -> (r: Vec<BazelTarget>)
        ensures
            r@.len() == targets@.len(),
            forall|i: int| 0 <= i < r@.len() ==> (#[trigger] r@[i])@ == (BazelTargetView {
                label: package_label(package_path@, targets@[i].name@),
                ..targets@[i]@
            }),
    {
        let mut out: Vec<BazelTarget> = Vec::new();
        let mut i: usize = 0;
        while i < targets.len()
            invariant
                i <= targets@.len(),
                out@.len() == i,
                forall|j: int| 0 <= j < i ==> (#[trigger] out@[j])@ == (BazelTargetView {
                    label: package_label(package_path@, targets@[j].name@),
                    ..targets@[j]@
                }),
            decreases targets.len() - i,
        {
            let mut t = targets[i].duplicate();
            t.label = concat3(package_path, ":", targets[i].name.as_str());
            out.push(t);
            i = i + 1;
        }
        out
    }
}

fn strip_colon(r: &str) -> (s: String)
    ensures
        s@ == crate_name(r@),
{
    let n = r.unicode_len();
    if n > 0 && r.get_char(0) == ':' {
        slice_from(r, 1)
    } else {
        crate::strings::owned(r)
    }
}

fn has_target_named(ts: &Vec<BazelTarget>, n: &str) -> (r: bool)
    ensures
        r == has_name(targets_view(ts@), n@),
{
    let ghost tv = targets_view(ts@);
    let mut i: usize = 0;
    while i < ts.len()
        invariant
            i <= ts@.len(),
            tv == targets_view(ts@),
            forall|j: int| 0 <= j < i ==> (#[trigger] tv[j]).name != n@,
        decreases ts.len() - i,
    {
        assert(tv[i as int].name == ts@[i as int].name@);
        if str_eq(ts[i].name.as_str(), n) {
            return true;
        }
        i = i + 1;
    }
    false
}

fn first_of_kind(ts: &Vec<BazelTarget>, k: BazelTargetKind) -> (r: Option<usize>)
    ensures
        match r {
            Some(i) => i as int == kind_from(targets_view(ts@), k, 0) && i < ts@.len(),
            None => kind_from(targets_view(ts@), k, 0) == -1,
        },
{
    let ghost tv = targets_view(ts@);
    let mut i: usize = 0;
    while i < ts.len()
        invariant
            i <= ts@.len(),
            tv == targets_view(ts@),
            kind_from(tv, k, i as int) == kind_from(tv, k, 0),
        decreases ts.len() - i,
    {
        assert(tv[i as int].kind == ts@[i as int].kind);
        if ts[i].kind == k {
            return Some(i);
        }
        i = i + 1;
    }
    None
}

fn bin_or_lib_index(ts: &Vec<BazelTarget>) -> (r: Option<usize>)
    ensures
        match r {
            Some(i) => i as int == bin_or_lib_from(targets_view(ts@), 0) && i < ts@.len(),
            None => bin_or_lib_from(targets_view(ts@), 0) == -1,
        },
{
    let ghost tv = targets_view(ts@);
    let mut i: usize = 0;
    while i < ts.len()
        invariant
            i <= ts@.len(),
            tv == targets_view(ts@),
            bin_or_lib_from(tv, i as int) == bin_or_lib_from(tv, 0),
        decreases ts.len() - i,
    {
        assert(tv[i as int].kind == ts@[i as int].kind);
        if ts[i].kind == BazelTargetKind::Binary || ts[i].kind == BazelTargetKind::Library {
            return Some(i);
        }
        i = i + 1;
    }
    None
}

fn referring_index(ts: &Vec<BazelTarget>, k: BazelTargetKind, lib: &str) -> (r: Option<usize>)
    ensures
        match r {
            Some(i) => i as int == referring_from(targets_view(ts@), k, lib@, 0) && i < ts@.len(),
            None => referring_from(targets_view(ts@), k, lib@, 0) == -1,
        },
{
    let ghost tv = targets_view(ts@);
    let mut i: usize = 0;
    while i < ts.len()
        invariant
            i <= ts@.len(),
            tv == targets_view(ts@),
            referring_from(tv, k, lib@, i as int) == referring_from(tv, k, lib@, 0),
        decreases ts.len() - i,
    {
        assert(tv[i as int] == ts@[i as int]@);
        let refers = ts[i].kind == k && match &ts[i].crate_ref {
            Some(c) => {
                let n = strip_colon(c.as_str());
                str_eq(n.as_str(), lib)
            },
            None => false,
        };
        if refers {
            return Some(i);
        }
        i = i + 1;
    }
    None
}

fn runnable_only(ts: &Vec<BazelTarget>, k: Option<BazelTargetKind>) -> (r: Vec<BazelTarget>)
    ensures
        targets_view(r@) == runnable_of(targets_view(ts@), k),
{
    let ghost tv = targets_view(ts@);
    let mut out: Vec<BazelTarget> = Vec::new();
    let mut i: usize = 0;
    assert(tv.subrange(0, 0) =~= Seq::<BazelTargetView>::empty());
    assert(targets_view(out@) =~= Seq::<BazelTargetView>::empty());
    while i < ts.len()
        invariant
            i <= ts@.len(),
            tv == targets_view(ts@),
            targets_view(out@) == runnable_of(tv.subrange(0, i as int), k),
        decreases ts.len() - i,
    {
        let ghost sub = tv.subrange(0, i + 1);
        assert(sub.drop_last() =~= tv.subrange(0, i as int));
        assert(sub.last() == ts@[i as int]@);
        let ghost before = targets_view(out@);
        let keep = ts[i].kind.is_runnable() && match k {
            None => true,
            Some(kk) => ts[i].kind == kk,
        };
        if keep {
            push_target(&mut out, ts[i].duplicate());
        } else {
            assert(before + Seq::<BazelTargetView>::empty() =~= before);
        }
        i = i + 1;
    }
    assert(tv.subrange(0, ts@.len() as int) =~= tv);
    out
}

/// `split_once` computed.
fn split_once_exec(p: &str, sep: &str) -> (r: Option<(String, String)>)
    ensures
        match r {
            Some((a, b)) => split_once(p@, sep@) == Some((a@, b@)),
            None => split_once(p@, sep@) is None,
        },
{
    let pn = p.unicode_len();
    let sn = sep.unicode_len();
    match find(p, sep) {
        None => None,
        Some(o) => {
            proof {
                lemma_index_of(p@, sep@);
            }
            match find_from(p, sep, o + sn) {
                Some(_) => None,
                None => Some((slice(p, 0, o), slice_from(p, o + sn))),
            }
        },
    }
}

} // verus!
