//! Bazel commands, the Rust rules a BUILD file declares, and Bazel labels
//! for source files.
use vstd::prelude::*;

use crate::command::cargo_command::{plain_command, CargoCommand, CommandType};
use crate::error::Error;
use crate::paths::{components, joined_by_slash, parent_components, path_components};
use crate::strings::{
    char_position, concat2, concat3, contains, find, index_of, is_prefix, lines, owned, position_of, seq_contains,
    slice, slice_from, starts_with, str_eq, text_lines, trim, trim_spec, trim_start, trim_start_spec,
};
use crate::command::builder::bazel::target_detection::{opt_seq, quoted_value};
use crate::types::{opt_view, push_string, RunnableKind};

verus! {

pub struct BazelCommandBuilder;

/// Each extra argument passed on to the test binary as `--test_arg <arg>`.
pub open spec fn test_arg_pairs(extra: Seq<Seq<char>>) -> Seq<Seq<char>>
    decreases extra.len(),
{
    if extra.len() == 0 {
        Seq::empty()
    } else {
        test_arg_pairs(extra.drop_last()) + seq!["--test_arg"@, extra.last()]
    }
}

/// The arguments of `bazel test :test`, with the exact-match filter and the
/// extra test binary arguments.
pub open spec fn bazel_test_args(filter: Option<Seq<char>>, extra: Seq<Seq<char>>) -> Seq<Seq<char>> {
    let base = seq!["test"@, ":test"@, "--test_output"@, "streamed"@];
    let filtered = match filter {
        Some(f) => base + seq!["--test_arg"@, "--exact"@, "--test_arg"@, f],
        None => base,
    };
    filtered + test_arg_pairs(extra)
}

/// The arguments of `bazel run //:<name>` (`server` by default), with the
/// binary's arguments after `--`.
pub open spec fn bazel_run_args(name: Option<Seq<char>>, extra: Seq<Seq<char>>) -> Seq<Seq<char>> {
    let target = match name {
        Some(n) => n,
        None => "server"@,
    };
    let base = seq!["run"@, "//:"@ + target];
    if extra.len() == 0 {
        base
    } else {
        base + seq!["--"@] + extra
    }
}

/// The optional slice's characters.
pub open spec fn opt_str_view(o: Option<&str>) -> Option<Seq<char>> {
    match o {
        Some(s) => Some(s@),
        None => None,
    }
}

/// Appends `a` as an owned string.
fn push_str(v: &mut Vec<String>, a: &str)
    ensures
        final(v).deep_view() == old(v).deep_view().push(a@),
{
    push_string(v, a.to_owned());
}

impl BazelCommandBuilder {
    /// A Bazel test command with optional exact test filtering, e.g.
    /// `bazel test :test --test_output streamed --test_arg --exact --test_arg tests::example`.
    pub fn build_test_command(test_filter: Option<&str>, extra_test_binary_args: &[String]) -> (r: Result<
        CargoCommand,
        Error,
    >)
        ensures
            r matches Ok(c) && c@ == plain_command(
                CommandType::Bazel,
                bazel_test_args(opt_str_view(test_filter), extra_test_binary_args.deep_view()),
            ),
    {
        let mut args: Vec<String> = Vec::new();
        assert(args.deep_view() =~= Seq::<Seq<char>>::empty());
        push_str(&mut args, "test");
        push_str(&mut args, ":test");
        push_str(&mut args, "--test_output");
        push_str(&mut args, "streamed");
        match test_filter {
            Some(filter) => {
                push_str(&mut args, "--test_arg");
                push_str(&mut args, "--exact");
                push_str(&mut args, "--test_arg");
                push_str(&mut args, filter);
            },
            None => {},
        }
        let ghost start = args.deep_view();
        assert(start =~= bazel_test_args(opt_str_view(test_filter), Seq::empty()));
        let mut i: usize = 0;
        while i < extra_test_binary_args.len()
            invariant
                i <= extra_test_binary_args@.len(),
                args.deep_view() == start + test_arg_pairs(
                    extra_test_binary_args.deep_view().subrange(0, i as int),
                ),
            decreases extra_test_binary_args.len() - i,
        {
            push_str(&mut args, "--test_arg");
            push_str(&mut args, extra_test_binary_args[i].as_str());
            proof {
                let s = extra_test_binary_args.deep_view().subrange(0, i + 1);
                assert(s.drop_last() =~= extra_test_binary_args.deep_view().subrange(0, i as int));
                assert(args.deep_view() =~= start + test_arg_pairs(s));
            }
            i = i + 1;
        }
        assert(extra_test_binary_args.deep_view().subrange(0, extra_test_binary_args@.len() as int)
            =~= extra_test_binary_args.deep_view());
        Ok(CargoCommand::new_bazel(args))
    }

    /// A Bazel run command for a binary, e.g. `bazel run //:server`.
    pub fn build_run_command(binary_name: Option<&str>, extra_test_binary_args: &[String]) -> (r: Result<
        CargoCommand,
        Error,
    >)
        ensures
            r matches Ok(c) && c@ == plain_command(
                CommandType::Bazel,
                bazel_run_args(opt_str_view(binary_name), extra_test_binary_args.deep_view()),
            ),
    {
        let target = match binary_name {
            Some(n) => n,
            None => "server",
        };
        let mut args: Vec<String> = Vec::new();
        assert(args.deep_view() =~= Seq::<Seq<char>>::empty());
        push_str(&mut args, "run");
        push_string(&mut args, concat2("//:", target));
        if extra_test_binary_args.len() > 0 {
            push_str(&mut args, "--");
            let ghost start = args.deep_view();
            let mut i: usize = 0;
            while i < extra_test_binary_args.len()
                invariant
                    i <= extra_test_binary_args@.len(),
                    args.deep_view() == start + extra_test_binary_args.deep_view().subrange(0, i as int),
                decreases extra_test_binary_args.len() - i,
            {
                push_str(&mut args, extra_test_binary_args[i].as_str());
                assert(args.deep_view() =~= start + extra_test_binary_args.deep_view().subrange(0, i + 1));
                i = i + 1;
            }
            assert(extra_test_binary_args.deep_view().subrange(0, extra_test_binary_args@.len() as int)
                =~= extra_test_binary_args.deep_view());
        }
        assert(args.deep_view() =~= bazel_run_args(
            opt_str_view(binary_name),
            extra_test_binary_args.deep_view(),
        ));
        Ok(CargoCommand::new_bazel(args))
    }

    /// The command for a runnable: tests and binaries are supported, other
    /// kinds give `None`.
    pub fn build_command_for_runnable(
        runnable_kind: &RunnableKind,
        test_filter: Option<&str>,
        extra_test_binary_args: &[String],
    ) -> (r: Result<Option<CargoCommand>, Error>)
        ensures
            r matches Ok(o) && match runnable_kind {
                RunnableKind::Test { .. } => o matches Some(c) && c@ == plain_command(
                    CommandType::Bazel,
                    bazel_test_args(opt_str_view(test_filter), extra_test_binary_args.deep_view()),
                ),
                RunnableKind::Binary { .. } => o matches Some(c) && c@ == plain_command(
                    CommandType::Bazel,
                    bazel_run_args(None, extra_test_binary_args.deep_view()),
                ),
                _ => o is None,
            },
    {
        match runnable_kind {
            RunnableKind::Test { .. } => {
                match Self::build_test_command(test_filter, extra_test_binary_args) {
                    Ok(c) => Ok(Some(c)),
                    Err(e) => Err(e),
                }
            },
            RunnableKind::Binary { .. } => {
                match Self::build_run_command(None, extra_test_binary_args) {
                    Ok(c) => Ok(Some(c)),
                    Err(e) => Err(e),
                }
            },
            _ => Ok(None),
        }
    }
}

/// Which Bazel files a directory holds, and whether it has a `Cargo.toml`.
#[derive(Debug, Clone, Copy)]
pub struct BazelMarkers {
    pub has_build_bazel: bool,
    pub has_build: bool,
    pub has_module_bazel: bool,
    pub has_workspace: bool,
    pub has_workspace_bazel: bool,
    pub has_cargo_toml: bool,
}

/// The directory holds a Bazel build file.
pub open spec fn bazel_marked(m: BazelMarkers) -> bool {
    m.has_build_bazel || m.has_build || m.has_module_bazel || m.has_workspace || m.has_workspace_bazel
}

/// Whether a directory with these files is a Bazel project: it holds
/// `BUILD.bazel`, `BUILD`, `MODULE.bazel`, `WORKSPACE` or `WORKSPACE.bazel`.
pub fn is_bazel_project(markers: &BazelMarkers) -> (r: bool)
    ensures
        r == bazel_marked(*markers),
{
    markers.has_build_bazel || markers.has_build || markers.has_module_bazel || markers.has_workspace
        || markers.has_workspace_bazel
}

/// The Bazel workspace root at `start_path` itself (no directory above it
/// is looked at): the path when it is a directory that is a Bazel project
/// without a `Cargo.toml`, else none.
pub fn find_bazel_workspace_root(start_path: &str, is_file: bool, markers: &BazelMarkers) -> (r: Option<String>)
    ensures
        match r {
            Some(p) => p@ == start_path@ && !is_file && bazel_marked(*markers) && !markers.has_cargo_toml,
            None => is_file || !bazel_marked(*markers) || markers.has_cargo_toml,
        },
{
    if is_file {
        return None;
    }
    if is_bazel_project(markers) && !markers.has_cargo_toml {
        Some(owned(start_path))
    } else {
        None
    }
}

/// A Rust rule declared in a BUILD file.
#[derive(Debug)]
pub struct BazelTarget {
    pub name: String,
    pub kind: BazelTargetKind,
}

#[derive(Debug, Clone, Copy, PartialEq, Eq, Structural)]
pub enum BazelTargetKind {
    RustTest,
    RustBinary,
    RustLibrary,
}

/// The Bazel package of the directory `dir`, relative to the workspace root:
/// `//` for the root itself, `//<relative path>` below it.
pub open spec fn package_label(rel: Seq<Seq<char>>) -> Seq<char> {
    if rel.len() == 0 {
        "//"@
    } else {
        "//"@ + joined_by_slash(rel)
    }
}

/// The Bazel package of a file: the components of its directory below those
/// of the workspace root; `None` when the path has no directory or the
/// directory is not under the root.
pub open spec fn package_of_file(file: Seq<char>, root: Seq<char>) -> Option<Seq<char>> {
    match parent_components(file) {
        None => None,
        Some(d) => {
            let b = components(root);
            if b.len() <= d.len() && d.subrange(0, b.len() as int) == b {
                Some(package_label(d.subrange(b.len() as int, d.len() as int)))
            } else {
                None
            }
        },
    }
}

/// The Bazel package path of the directory holding a file, relative to the
/// workspace root: `//` for the root itself, `//<relative path>` below it;
/// `None` when the file's directory is not under the root.
pub fn get_bazel_package_path(file_path: &str, workspace_root: &str) -> (r: Option<String>)
    ensures
        opt_view(r) == package_of_file(file_path@, workspace_root@),
{
    let c = path_components(file_path);
    let n = c.len();
    if n == 0 {
        return None;
    }
    if n == 1 && str_eq(c[0].as_str(), "/") {
        return None;
    }
    let ghost d = c.deep_view().drop_last();
    let b = path_components(workspace_root);
    let m = b.len();
    if m > n - 1 {
        return None;
    }
    let mut i: usize = 0;
    while i < m
        invariant
            i <= m,
            m <= n - 1,
            n == c@.len(),
            m == b@.len(),
            c.deep_view() == components(file_path@),
            b.deep_view() == components(workspace_root@),
            d == c.deep_view().drop_last(),
            forall|j: int| 0 <= j < i ==> d[j] == b.deep_view()[j],
        decreases m - i,
    {
        if !str_eq(c[i].as_str(), b[i].as_str()) {
            assert(d[i as int] != b.deep_view()[i as int]);
            assert(d.subrange(0, m as int)[i as int] != b.deep_view()[i as int]);
            return None;
        }
        i = i + 1;
    }
    assert(d.subrange(0, m as int) =~= b.deep_view());
    let mut out = String::from_str("//");
    let mut k: usize = m;
    proof {
        reveal_strlit("//");
        assert(d.subrange(m as int, m as int) =~= Seq::<Seq<char>>::empty());
    }
    while k < n - 1
        invariant
            m <= k <= n - 1,
            n == c@.len(),
            c.deep_view() == components(file_path@),
            d == c.deep_view().drop_last(),
            out@ == "//"@ + joined_by_slash(d.subrange(m as int, k as int)),
        decreases n - 1 - k,
    {
        if k > m {
            out.append("/");
        }
        out.append(c[k].as_str());
        proof {
            let s2 = d.subrange(m as int, k + 1);
            assert(s2.drop_last() =~= d.subrange(m as int, k as int));
            assert(s2.last() == c@[k as int]@);
            assert(out@ =~= "//"@ + joined_by_slash(s2));
        }
        k = k + 1;
    }
    proof {
        let rel = d.subrange(m as int, d.len() as int);
        assert(d.subrange(m as int, k as int) =~= rel);
        assert(out@ =~= package_label(rel));
    }
    Some(out)
}

/// The label of a target in a package: `:<name>` in the root package,
/// `<package>:<name>` elsewhere.
pub open spec fn target_label(package: Seq<char>, name: Seq<char>) -> Seq<char> {
    if package == "//"@ {
        ":"@ + name
    } else {
        package + ":"@ + name
    }
}

/// The rule kind looked for: tests when `is_test`, binaries otherwise.
pub open spec fn wanted_kind(is_test: bool) -> BazelTargetKind {
    if is_test {
        BazelTargetKind::RustTest
    } else {
        BazelTargetKind::RustBinary
    }
}

/// `i` is the position of the first target of the given kind.
pub open spec fn is_first_of_kind(targets: Seq<BazelTarget>, kind: BazelTargetKind, i: int) -> bool {
    &&& 0 <= i < targets.len()
    &&& targets[i].kind == kind
    &&& forall|j: int| 0 <= j < i ==> targets[j].kind != kind
}

/// The label of the first test target (or, when `is_test` is false, the
/// first binary target) among the targets of a package.
pub fn select_bazel_target(package_path: &str, targets: &Vec<BazelTarget>, is_test: bool) -> (r: Option<String>)
    ensures
        match r {
            None => forall|j: int| 0 <= j < targets@.len() ==> targets@[j].kind != wanted_kind(is_test),
            Some(s) => exists|i: int|
                is_first_of_kind(targets@, wanted_kind(is_test), i)
                    && s@ == target_label(package_path@, #[trigger] targets@[i].name@),
        },
{
    let kind = if is_test {
        BazelTargetKind::RustTest
    } else {
        BazelTargetKind::RustBinary
    };
    let mut i: usize = 0;
    while i < targets.len()
        invariant
            i <= targets@.len(),
            kind == wanted_kind(is_test),
            forall|j: int| 0 <= j < i ==> targets@[j].kind != kind,
        decreases targets.len() - i,
    {
        if targets[i].kind == kind {
            let name = targets[i].name.as_str();
            let label = if crate::strings::str_eq(package_path, "//") {
                concat2(":", name)
            } else {
                concat3(package_path, ":", name)
            };
            proof {
                assert(is_first_of_kind(targets@, kind, i as int));
                assert(label@ == target_label(package_path@, targets@[i as int].name@));
            }
            return Some(label);
        }
        i = i + 1;
    }
    None
}

/// The kind of Rust rule a BUILD file line starts: `rust_test(` and the
/// like, or the bare rule name on its own line when the file names anything.
pub open spec fn line_rule(content: Seq<char>, line: Seq<char>) -> Option<BazelTargetKind> {
    line_rule_with(seq_contains(content, "name"@), line)
}

/// `line_rule` once it is known whether the file names anything.
pub open spec fn line_rule_with(named: bool, line: Seq<char>) -> Option<BazelTargetKind> {
    let t = trim_spec(line);
    if is_prefix("rust_test("@, t) || (t == "rust_test"@ && named) {
        Some(BazelTargetKind::RustTest)
    } else if is_prefix("rust_binary("@, t) || (t == "rust_binary"@ && named) {
        Some(BazelTargetKind::RustBinary)
    } else if is_prefix("rust_library("@, t) || (t == "rust_library"@ && named) {
        Some(BazelTargetKind::RustLibrary)
    } else {
        None
    }
}

/// The name given to the rule that starts at the first occurrence of
/// `line` in the file: the quoted value after the first `name` and `=`,
/// looked for up to the next line starting with `rust_`.
pub open spec fn target_name_in(content: Seq<char>, line: Seq<char>) -> Option<Seq<char>> {
    if !seq_contains(content, line) {
        None
    } else {
        let rc = content.subrange(index_of(content, line), content.len() as int);
        let sec = if seq_contains(rc, "\nrust_"@) {
            rc.subrange(0, index_of(rc, "\nrust_"@))
        } else {
            rc
        };
        if !seq_contains(sec, "name"@) {
            None
        } else {
            let an = sec.subrange(index_of(sec, "name"@) + 4, sec.len() as int);
            let eq = char_position(an, '=');
            if eq >= an.len() {
                None
            } else {
                let v = trim_start_spec(an.subrange(eq + 1, an.len() as int));
                if v.len() > 0 && v[0] == '"' {
                    quoted_value(v, '"')
                } else if v.len() > 0 && v[0] == '\'' {
                    quoted_value(v, '\'')
                } else {
                    None
                }
            }
        }
    }
}

/// The targets the lines declare, in order.
pub open spec fn line_targets(content: Seq<char>, ls: Seq<Seq<char>>) -> Seq<(Seq<char>, BazelTargetKind)>
    decreases ls.len(),
{
    if ls.len() == 0 {
        Seq::empty()
    } else {
        line_targets(content, ls.drop_last()) + match (line_rule(content, ls.last()), target_name_in(content, ls.last())) {
            (Some(k), Some(n)) => seq![(n, k)],
            _ => Seq::empty(),
        }
    }
}

/// The name of the rule starting at the first occurrence of `start_line`.
fn extract_target_name(content: &str, start_line: &str) -> (r: Option<String>)
    ensures
        opt_seq(r) == target_name_in(content@, start_line@),
{
    let cn = content.unicode_len();
    let start = match find(content, start_line) {
        Some(p) => p,
        None => return None,
    };
    let rc = slice_from(content, start);
    let sec = match find(rc.as_str(), "\nrust_") {
        Some(e) => slice(rc.as_str(), 0, e),
        None => owned(rc.as_str()),
    };
    let sn = sec.unicode_len();
    let name_pos = match find(sec.as_str(), "name") {
        Some(p) => p,
        None => return None,
    };
    proof {
        reveal_strlit("name");
    }
    let an = slice_from(sec.as_str(), name_pos + 4);
    let eq = position_of(an.as_str(), '=');
    if eq >= an.unicode_len() {
        return None;
    }
    let rest = slice_from(an.as_str(), eq + 1);
    let v = trim_start(rest.as_str());
    let vn = v.unicode_len();
    if vn > 0 && v.get_char(0) == '"' {
        quoted_in(v.as_str(), '"')
    } else if vn > 0 && v.get_char(0) == '\'' {
        quoted_in(v.as_str(), '\'')
    } else {
        None
    }
}

fn quoted_in(v: &str, q: char) -> (r: Option<String>)
    requires
        v@.len() > 0,
    ensures
        opt_seq(r) == quoted_value(v@, q),
{
    let rest = slice_from(v, 1);
    let e = position_of(rest.as_str(), q);
    if e < rest.unicode_len() {
        Some(slice(rest.as_str(), 0, e))
    } else {
        None
    }
}

fn rule_of_line(content_named: bool, line: &str) -> (r: Option<BazelTargetKind>)
    ensures
        r == line_rule_with(content_named, line@),
{
    let t = trim(line);
    let ts = t.as_str();
    if starts_with(ts, "rust_test(") || (str_eq(ts, "rust_test") && content_named) {
        Some(BazelTargetKind::RustTest)
    } else if starts_with(ts, "rust_binary(") || (str_eq(ts, "rust_binary") && content_named) {
        Some(BazelTargetKind::RustBinary)
    } else if starts_with(ts, "rust_library(") || (str_eq(ts, "rust_library") && content_named) {
        Some(BazelTargetKind::RustLibrary)
    } else {
        None
    }
}

/// The Rust test, binary and library rules a BUILD file's text declares,
/// found line by line, each with its name.
pub fn parse_bazel_targets(content: &str) -> (r: Vec<BazelTarget>)
    ensures
        r@.map_values(|t: BazelTarget| (t.name@, t.kind)) == line_targets(content@, text_lines(content@)),
{
    let ls = lines(content);
    let ghost lv = ls.deep_view();
    let named = contains(content, "name");
    let mut targets: Vec<BazelTarget> = Vec::new();
    let mut i: usize = 0;
    assert(lv.subrange(0, 0) =~= Seq::<Seq<char>>::empty());
    assert(targets@.map_values(|t: BazelTarget| (t.name@, t.kind)) =~= line_targets(content@, lv.subrange(0, 0)));
    while i < ls.len()
        invariant
            i <= ls@.len(),
            lv == ls.deep_view(),
            lv == text_lines(content@),
            named == seq_contains(content@, "name"@),
            targets@.map_values(|t: BazelTarget| (t.name@, t.kind)) == line_targets(content@, lv.subrange(0, i as int)),
        decreases ls.len() - i,
    {
        let line = ls[i].as_str();
        let ghost sub = lv.subrange(0, i + 1);
        assert(sub.drop_last() =~= lv.subrange(0, i as int));
        assert(sub.last() == line@);
        let ghost before = targets@.map_values(|t: BazelTarget| (t.name@, t.kind));
        match rule_of_line(named, line) {
            Some(kind) => match extract_target_name(content, line) {
                Some(name) => {
                    let t = BazelTarget { name, kind };
                    let ghost old_t = targets@;
                    targets.push(t);
                    proof {
                        assert(targets@ == old_t.push(t));
                        assert(targets@.map_values(|t: BazelTarget| (t.name@, t.kind)) =~= before.push((t.name@, t.kind)));
                    }
                },
                None => {
                    assert(before + Seq::empty() =~= before);
                },
            },
            None => {
                assert(before + Seq::empty() =~= before);
            },
        }
        assert(targets@.map_values(|t: BazelTarget| (t.name@, t.kind)) =~= line_targets(content@, sub));
        i = i + 1;
    }
    assert(lv.subrange(0, ls@.len() as int) =~= lv);
    targets
}

} // verus!
