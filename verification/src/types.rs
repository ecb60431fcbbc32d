//! The values that describe what can be run: a runnable's kind, the kind of
//! file it lives in, and the identity used to match configuration overrides.
use vstd::prelude::*;

use crate::strings::str_eq;

verus! {

/// What a runnable item is.
#[derive(Debug)]
pub enum RunnableKind {
    Test { test_name: String, is_async: bool },
    Binary { bin_name: Option<String> },
    Benchmark { bench_name: String },
    DocTest { struct_or_module_name: String, method_name: Option<String> },
    ModuleTests { module_name: String },
    Standalone { has_tests: bool },
    SingleFileScript { shebang: String },
}

/// How a Rust source file is built.
#[derive(Debug, Clone, Copy, PartialEq, Eq, Structural)]
pub enum FileType {
    CargoProject,
    Standalone,
    SingleFileScript,
}

/// A position in a source file.
#[derive(Debug, Clone, Copy, PartialEq, Eq, Structural)]
pub struct Position {
    pub line: u32,
    pub character: u32,
}

impl Position {
    pub fn new(line: u32, character: u32) -> (r: Self)
        ensures
            r.line == line,
            r.character == character,
    {
        Position { line, character }
    }
}

/// The syntactic kind of a scope in a source file.
#[derive(Debug, Clone, Copy, PartialEq, Eq, Structural)]
pub enum ScopeKind {
    File,
    Module,
    Function,
    Impl,
    Test,
    DocTest,
}

/// A region of a source file.
#[derive(Debug)]
pub struct Scope {
    pub start: Position,
    pub end: Position,
    pub kind: ScopeKind,
    pub name: Option<String>,
}

/// Something that can be run: a test, a binary, a benchmark, a doc test.
#[derive(Debug)]
pub struct Runnable {
    pub label: String,
    pub scope: Scope,
    pub kind: RunnableKind,
    pub mod_path: String,
    pub file_path: String,
    pub extended_scope: Option<Scope>,
}

/// The optional string's characters.
pub open spec fn opt_view(o: Option<String>) -> Option<Seq<char>> {
    match o {
        Some(s) => Some(s@),
        None => None,
    }
}

/// A copy of an optional string.
pub fn clone_opt(o: &Option<String>) -> (r: Option<String>)
    ensures
        opt_view(r) == opt_view(*o),
{
    match o {
        Some(s) => Some(s.clone()),
        None => None,
    }
}

/// A copy of a vector of strings.
pub fn clone_strings(v: &Vec<String>) -> (r: Vec<String>)
    ensures
        r.deep_view() == v.deep_view(),
{
    let mut r: Vec<String> = Vec::new();
    let mut i: usize = 0;
    while i < v.len()
        invariant
            i <= v.len(),
            r@.len() == i,
            r.deep_view() == v.deep_view().subrange(0, i as int),
        decreases v.len() - i,
    {
        let s = v[i].clone();
        let ghost old_r = r@;
        let ghost old_dv = r.deep_view();
        r.push(s);
        proof {
            assert(r@ == old_r.push(s));
            assert forall|j: int| 0 <= j < i + 1 implies r.deep_view()[j] == v.deep_view()[j] by {
                if j < i {
                    assert(r@[j] == old_r[j]);
                    assert(old_dv[j] == old_r[j]@);
                    assert(old_dv[j] == v.deep_view()[j]);
                } else {
                    assert(r@[j] == s);
                    assert(s@ == v@[j]@);
                }
            }
            assert(r.deep_view() =~= v.deep_view().subrange(0, i + 1));
        }
        i = i + 1;
    }
    assert(v.deep_view().subrange(0, v.len() as int) =~= v.deep_view());
    r
}

/// Appends `s` to `v`.
pub fn push_string(v: &mut Vec<String>, s: String)
    ensures
        final(v).deep_view() == old(v).deep_view().push(s@),
{
    let ghost old_r = v@;
    let ghost old_dv = v.deep_view();
    let ghost sv = s@;
    v.push(s);
    proof {
        assert forall|j: int| 0 <= j < v@.len() implies v.deep_view()[j] == old_dv.push(sv)[j] by {
            if j < old_r.len() {
                assert(v@[j] == old_r[j]);
            }
        }
        assert(v.deep_view() =~= old_dv.push(sv));
    }
}

/// Appends a copy of every string of `extra` to `v`.
pub fn extend_strings(v: &mut Vec<String>, extra: &Vec<String>)
    ensures
        final(v).deep_view() == old(v).deep_view() + extra.deep_view(),
{
    let ghost start = v.deep_view();
    let mut i: usize = 0;
    while i < extra.len()
        invariant
            i <= extra.len(),
            v.deep_view() == start + extra.deep_view().subrange(0, i as int),
        decreases extra.len() - i,
    {
        let s = extra[i].clone();
        let ghost old_r = v@;
        let ghost old_dv = v.deep_view();
        v.push(s);
        proof {
            assert(v@ == old_r.push(s));
            assert forall|j: int| 0 <= j < v@.len() implies v.deep_view()[j] == old_dv.push(s@)[j] by {
                if j < old_r.len() {
                    assert(v@[j] == old_r[j]);
                }
            }
            assert(v.deep_view() =~= old_dv.push(s@));
            assert(start + extra.deep_view().subrange(0, i + 1) =~= (start + extra.deep_view().subrange(0, i as int)).push(extra@[i as int]@));
        }
        i = i + 1;
    }
    assert(extra.deep_view().subrange(0, extra.len() as int) =~= extra.deep_view());
}

/// A copy of an optional vector of strings.
pub fn clone_opt_strings(o: &Option<Vec<String>>) -> (r: Option<Vec<String>>)
    ensures
        opt_strings_view(r) == opt_strings_view(*o),
{
    match o {
        Some(v) => Some(clone_strings(v)),
        None => None,
    }
}

/// The characters of each string in an optional vector.
pub open spec fn opt_strings_view(o: Option<Vec<String>>) -> Option<Seq<Seq<char>>> {
    match o {
        Some(v) => Some(v.deep_view()),
        None => None,
    }
}

/// A runnable kind as values.
pub enum KindView {
    Test { test_name: Seq<char>, is_async: bool },
    Binary { bin_name: Option<Seq<char>> },
    Benchmark { bench_name: Seq<char> },
    DocTest { struct_or_module_name: Seq<char>, method_name: Option<Seq<char>> },
    ModuleTests { module_name: Seq<char> },
    Standalone { has_tests: bool },
    SingleFileScript { shebang: Seq<char> },
}

impl View for RunnableKind {
    type V = KindView;

    open spec fn view(&self) -> KindView {
        match self {
            RunnableKind::Test { test_name, is_async } => KindView::Test { test_name: test_name@, is_async: *is_async },
            RunnableKind::Binary { bin_name } => KindView::Binary { bin_name: opt_view(*bin_name) },
            RunnableKind::Benchmark { bench_name } => KindView::Benchmark { bench_name: bench_name@ },
            RunnableKind::DocTest { struct_or_module_name, method_name } => KindView::DocTest {
                struct_or_module_name: struct_or_module_name@,
                method_name: opt_view(*method_name),
            },
            RunnableKind::ModuleTests { module_name } => KindView::ModuleTests { module_name: module_name@ },
            RunnableKind::Standalone { has_tests } => KindView::Standalone { has_tests: *has_tests },
            RunnableKind::SingleFileScript { shebang } => KindView::SingleFileScript { shebang: shebang@ },
        }
    }
}

/// A runnable as values (its extended scope left out).
pub struct RunnableView {
    pub label: Seq<char>,
    pub start: Position,
    pub end: Position,
    pub scope_kind: ScopeKind,
    pub scope_name: Option<Seq<char>>,
    pub kind: KindView,
    pub mod_path: Seq<char>,
    pub file_path: Seq<char>,
}

impl View for Runnable {
    type V = RunnableView;

    open spec fn view(&self) -> RunnableView {
        RunnableView {
            label: self.label@,
            start: self.scope.start,
            end: self.scope.end,
            scope_kind: self.scope.kind,
            scope_name: opt_view(self.scope.name),
            kind: self.kind@,
            mod_path: self.mod_path@,
            file_path: self.file_path@,
        }
    }
}

impl RunnableKind {
    /// A copy of this kind.
    pub fn duplicate(&self) -> (r: RunnableKind)
        ensures
            r.same_as(*self),
    {
        match self {
            RunnableKind::Test { test_name, is_async } => RunnableKind::Test {
                test_name: test_name.clone(),
                is_async: *is_async,
            },
            RunnableKind::Binary { bin_name } => RunnableKind::Binary { bin_name: clone_opt(bin_name) },
            RunnableKind::Benchmark { bench_name } => RunnableKind::Benchmark {
                bench_name: bench_name.clone(),
            },
            RunnableKind::DocTest { struct_or_module_name, method_name } => RunnableKind::DocTest {
                struct_or_module_name: struct_or_module_name.clone(),
                method_name: clone_opt(method_name),
            },
            RunnableKind::ModuleTests { module_name } => RunnableKind::ModuleTests {
                module_name: module_name.clone(),
            },
            RunnableKind::Standalone { has_tests } => RunnableKind::Standalone { has_tests: *has_tests },
            RunnableKind::SingleFileScript { shebang } => RunnableKind::SingleFileScript {
                shebang: shebang.clone(),
            },
        }
    }

    /// Two kinds are the same variant with the same text in every field.
    pub open spec fn same_as(self, other: RunnableKind) -> bool {
        match (self, other) {
            (RunnableKind::Test { test_name: a, is_async: x }, RunnableKind::Test { test_name: b, is_async: y }) =>
                a@ == b@ && x == y,
            (RunnableKind::Binary { bin_name: a }, RunnableKind::Binary { bin_name: b }) => opt_view(a) == opt_view(b),
            (RunnableKind::Benchmark { bench_name: a }, RunnableKind::Benchmark { bench_name: b }) => a@ == b@,
            (
                RunnableKind::DocTest { struct_or_module_name: a, method_name: m },
                RunnableKind::DocTest { struct_or_module_name: b, method_name: n },
            ) => a@ == b@ && opt_view(m) == opt_view(n),
            (RunnableKind::ModuleTests { module_name: a }, RunnableKind::ModuleTests { module_name: b }) => a@ == b@,
            (RunnableKind::Standalone { has_tests: a }, RunnableKind::Standalone { has_tests: b }) => a == b,
            (RunnableKind::SingleFileScript { shebang: a }, RunnableKind::SingleFileScript { shebang: b }) => a@ == b@,
            _ => false,
        }
    }
}

impl Runnable {
    /// The function name a runnable stands for: the test or benchmark name,
    /// otherwise the name of its scope.
    pub open spec fn function_name_spec(self) -> Option<Seq<char>> {
        match self.kind {
            RunnableKind::Test { test_name, .. } => Some(test_name@),
            RunnableKind::Benchmark { bench_name } => Some(bench_name@),
            _ => opt_view(self.scope.name),
        }
    }

    pub fn get_function_name(&self) -> (r: Option<String>)
        ensures
            opt_view(r) == self.function_name_spec(),
    {
        match &self.kind {
            RunnableKind::Test { test_name, .. } => Some(test_name.clone()),
            RunnableKind::Benchmark { bench_name } => Some(bench_name.clone()),
            _ => clone_opt(&self.scope.name),
        }
    }
}

/// Identifies a function (or file, module or package) for matching
/// configuration overrides. A field that is `None` matches anything.
#[derive(Debug, Default)]
pub struct FunctionIdentity {
    pub package: Option<String>,
    pub mod_path: Option<String>,
    pub file_path: Option<String>,
    pub function_name: Option<String>,
}

/// A required field: absent requires nothing, present requires the same value.
pub open spec fn field_matches(want: Option<Seq<char>>, have: Option<Seq<char>>) -> bool {
    match want {
        None => true,
        Some(w) => have == Some(w),
    }
}

/// Whether an optional requirement is met by an optional value.
fn opt_field_matches(want: &Option<String>, have: &Option<String>) -> (r: bool)
    ensures
        r == field_matches(opt_view(*want), opt_view(*have)),
{
    match want {
        None => true,
        Some(w) => match have {
            Some(h) => str_eq(w.as_str(), h.as_str()),
            None => false,
        },
    }
}

/// An identity as values.
pub struct IdentityView {
    pub package: Option<Seq<char>>,
    pub mod_path: Option<Seq<char>>,
    pub file_path: Option<Seq<char>>,
    pub function_name: Option<Seq<char>>,
}

impl View for FunctionIdentity {
    type V = IdentityView;

    open spec fn view(&self) -> IdentityView {
        IdentityView {
            package: opt_view(self.package),
            mod_path: opt_view(self.mod_path),
            file_path: opt_view(self.file_path),
            function_name: opt_view(self.function_name),
        }
    }
}

impl FunctionIdentity {
    /// The pattern `self` matches the identity `other`: every field that
    /// `self` names has the same value in `other`.
    pub open spec fn matches_spec(self, other: FunctionIdentity) -> bool {
        &&& field_matches(opt_view(self.package), opt_view(other.package))
        &&& field_matches(opt_view(self.mod_path), opt_view(other.mod_path))
        &&& field_matches(opt_view(self.file_path), opt_view(other.file_path))
        &&& field_matches(opt_view(self.function_name), opt_view(other.function_name))
    }

    /// Every field holds the same text.
    pub open spec fn same_as(self, other: FunctionIdentity) -> bool {
        &&& opt_view(self.package) == opt_view(other.package)
        &&& opt_view(self.mod_path) == opt_view(other.mod_path)
        &&& opt_view(self.file_path) == opt_view(other.file_path)
        &&& opt_view(self.function_name) == opt_view(other.function_name)
    }

    pub fn matches(&self, other: &FunctionIdentity) -> (r: bool)
        ensures
            r == self.matches_spec(*other),
    {
        opt_field_matches(&self.package, &other.package) && opt_field_matches(
            &self.mod_path,
            &other.mod_path,
        ) && opt_field_matches(&self.file_path, &other.file_path) && opt_field_matches(
            &self.function_name,
            &other.function_name,
        )
    }

    /// Whether both identities hold the same text in every field.
    pub fn same_identity(&self, other: &FunctionIdentity) -> (r: bool)
        ensures
            r == self.same_as(*other),
    {
        opt_eq(&self.package, &other.package) && opt_eq(&self.mod_path, &other.mod_path)
            && opt_eq(&self.file_path, &other.file_path) && opt_eq(
            &self.function_name,
            &other.function_name,
        )
    }

    /// A copy of this identity.
    pub fn duplicate(&self) -> (r: FunctionIdentity)
        ensures
            r.same_as(*self),
    {
        FunctionIdentity {
            package: clone_opt(&self.package),
            mod_path: clone_opt(&self.mod_path),
            file_path: clone_opt(&self.file_path),
            function_name: clone_opt(&self.function_name),
        }
    }
}

/// Whether two optional strings hold the same text.
pub fn opt_eq(a: &Option<String>, b: &Option<String>) -> (r: bool)
    ensures
        r == (opt_view(*a) == opt_view(*b)),
{
    match (a, b) {
        (Some(x), Some(y)) => str_eq(x.as_str(), y.as_str()),
        (None, None) => true,
        _ => false,
    }
}

} // verus!
