//! The scopes a configuration layer can apply to, and how a scope is matched
//! against the place a command is run from.
use vstd::prelude::*;
use crate::strings::{has_char, is_prefix, seq_contains, qualified, str_eq, contains_char, contains, starts_with, concat2, qualify};
use crate::paths::{glob_match_spec, path_ends_with, glob_match, ends_with_path};
use crate::types::opt_view;

verus! {

/// Where a configuration applies, from the whole workspace (least specific)
/// to a single method (most specific).
#[derive(Debug, Clone)]
pub enum Scope {
    Workspace,
    Crate(String),
    File(String),
    Module(String),
    Type(String),
    Function(String),
    Method(String),
}

/// The kind of item a command is run for.
#[derive(Debug, Clone, Copy, PartialEq, Eq, Structural)]
pub enum ScopeKind {
    Test,
    Binary,
    Benchmark,
    DocTest,
    Example,
    Build,
}

/// What is known about the place a command is run from.
#[derive(Debug, Clone, Default)]
pub struct ScopeContext {
    pub crate_name: Option<String>,
    pub file_path: Option<String>,
    pub mod_path: Option<String>,
    pub ty_name: Option<String>,
    pub function_name: Option<String>,
    pub method_name: Option<String>,
    pub scope_kind: Option<ScopeKind>,
}

/// A scope as values.
pub enum ScopeView {
    Workspace,
    Crate(Seq<char>),
    File(Seq<char>),
    Module(Seq<char>),
    Type(Seq<char>),
    Function(Seq<char>),
    Method(Seq<char>),
}

impl View for Scope {
    type V = ScopeView;

    open spec fn view(&self) -> ScopeView {
        match self {
            Scope::Workspace => ScopeView::Workspace,
            Scope::Crate(n) => ScopeView::Crate(n@),
            Scope::File(n) => ScopeView::File(n@),
            Scope::Module(n) => ScopeView::Module(n@),
            Scope::Type(n) => ScopeView::Type(n@),
            Scope::Function(n) => ScopeView::Function(n@),
            Scope::Method(n) => ScopeView::Method(n@),
        }
    }
}

/// An optional name that is present and equal to `want`.
pub open spec fn names(have: Option<String>, want: Seq<char>) -> bool {
    opt_view(have) == Some(want)
}

/// Whether a file scope written as `pattern` covers the file `path`: a glob
/// when the pattern holds `*` or `?`, otherwise a whole-component suffix.
pub open spec fn file_scope_matches(pattern: Seq<char>, path: Seq<char>) -> bool {
    if has_char(pattern, '*') || has_char(pattern, '?') {
        glob_match_spec(pattern, path)
    } else {
        path_ends_with(path, pattern)
    }
}

/// Whether module `m` is the module `have` or one of its ancestors.
pub open spec fn module_covers(m: Seq<char>, have: Seq<char>) -> bool {
    have == m || is_prefix(m + "::"@, have)
}

/// Whether a function scope `f` names the function `have` in module `module`:
/// by its bare name, or, when `f` is qualified, by `module::have`.
pub open spec fn function_named(f: Seq<char>, have: Seq<char>, module: Option<Seq<char>>) -> bool {
    have == f || (seq_contains(f, "::"@) && (module matches Some(m) && qualified(m, have) == f))
}

impl Scope {
    /// Whether this scope applies to the context.
    pub open spec fn matches_spec(self, context: ScopeContext) -> bool {
        match self {
            Scope::Workspace => true,
            Scope::Crate(name) => names(context.crate_name, name@),
            Scope::File(pattern) => match context.file_path {
                Some(p) => file_scope_matches(pattern@, p@),
                None => false,
            },
            Scope::Module(m) => match context.mod_path {
                Some(have) => module_covers(m@, have@),
                None => false,
            },
            Scope::Type(t) => names(context.ty_name, t@),
            Scope::Function(f) => match context.function_name {
                Some(have) => function_named(f@, have@, opt_view(context.mod_path)),
                None => false,
            },
            Scope::Method(m) => names(context.method_name, m@),
        }
    }

    /// Rank of the scope: 0 for the workspace up to 6 for a method.
    pub open spec fn rank(self) -> u32 {
        match self {
            Scope::Workspace => 0,
            Scope::Crate(_) => 1,
            Scope::File(_) => 2,
            Scope::Module(_) => 3,
            Scope::Type(_) => 4,
            Scope::Function(_) => 5,
            Scope::Method(_) => 6,
        }
    }

    /// Check if this scope matches the given context.
    pub fn matches(&self, context: &ScopeContext) -> (r: bool)
        ensures
            r == self.matches_spec(*context),
    {
        match self {
            Scope::Workspace => true,
            Scope::Crate(name) => opt_is(&context.crate_name, name.as_str()),
            Scope::File(pattern) => match &context.file_path {
                Some(p) => {
                    if contains_char(pattern.as_str(), '*') || contains_char(pattern.as_str(), '?') {
                        glob_match(pattern.as_str(), p.as_str())
                    } else {
                        ends_with_path(p.as_str(), pattern.as_str())
                    }
                },
                None => false,
            },
            Scope::Module(m) => match &context.mod_path {
                Some(have) => {
                    if str_eq(have.as_str(), m.as_str()) {
                        true
                    } else {
                        let prefix = concat2(m.as_str(), "::");
                        starts_with(have.as_str(), prefix.as_str())
                    }
                },
                None => false,
            },
            Scope::Type(t) => opt_is(&context.ty_name, t.as_str()),
            Scope::Function(f) => match &context.function_name {
                Some(have) => {
                    if str_eq(have.as_str(), f.as_str()) {
                        true
                    } else if contains(f.as_str(), "::") {
                        match &context.mod_path {
                            Some(m) => {
                                let q = qualify(m.as_str(), have.as_str());
                                str_eq(q.as_str(), f.as_str())
                            },
                            None => false,
                        }
                    } else {
                        false
                    }
                },
                None => false,
            },
            Scope::Method(m) => opt_is(&context.method_name, m.as_str()),
        }
    }

    /// Get the specificity level of this scope (higher = more specific).
    pub fn specificity(&self) -> (r: u32)
        ensures
            r == self.rank(),
    {
        match self {
            Scope::Workspace => 0,
            Scope::Crate(_) => 1,
            Scope::File(_) => 2,
            Scope::Module(_) => 3,
            Scope::Type(_) => 4,
            Scope::Function(_) => 5,
            Scope::Method(_) => 6,
        }
    }
}

/// Whether an optional name is present and equal to `want`.
fn opt_is(have: &Option<String>, want: &str) -> (r: bool)
    ensures
        r == names(*have, want@),
{
    match have {
        Some(h) => str_eq(h.as_str(), want),
        None => false,
    }
}

impl ScopeContext {
    /// A context that knows nothing yet.
    pub open spec fn empty() -> ScopeContext {
        ScopeContext {
            crate_name: None,
            file_path: None,
            mod_path: None,
            ty_name: None,
            function_name: None,
            method_name: None,
            scope_kind: None,
        }
    }

    /// Create a new scope context.
    pub fn new() -> (r: Self)
        ensures
            r == ScopeContext::empty(),
    {
        ScopeContext {
            crate_name: None,
            file_path: None,
            mod_path: None,
            ty_name: None,
            function_name: None,
            method_name: None,
            scope_kind: None,
        }
    }

    /// Builder method for crate name.
    pub fn with_crate(self, name: String) -> (r: Self)
        ensures
            r == (ScopeContext { crate_name: Some(name), ..self }),
    {
        ScopeContext { crate_name: Some(name), ..self }
    }

    /// Builder method for file path.
    pub fn with_file(self, path: String) -> (r: Self)
        ensures
            r == (ScopeContext { file_path: Some(path), ..self }),
    {
        ScopeContext { file_path: Some(path), ..self }
    }

    /// Builder method for module path.
    pub fn with_module(self, path: String) -> (r: Self)
        ensures
            r == (ScopeContext { mod_path: Some(path), ..self }),
    {
        ScopeContext { mod_path: Some(path), ..self }
    }

    /// Builder method for function name.
    pub fn with_function(self, name: String) -> (r: Self)
        ensures
            r == (ScopeContext { function_name: Some(name), ..self }),
    {
        ScopeContext { function_name: Some(name), ..self }
    }

    /// Builder method for scope kind.
    pub fn with_kind(self, kind: ScopeKind) -> (r: Self)
        ensures
            r == (ScopeContext { scope_kind: Some(kind), ..self }),
    {
        ScopeContext { scope_kind: Some(kind), ..self }
    }
}

} // verus!
