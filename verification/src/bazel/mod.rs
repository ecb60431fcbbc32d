//! Bazel rules read from BUILD files, and how a source file is matched to the
//! rule that builds, runs or tests it.
use vstd::prelude::*;
use crate::types::{clone_opt, clone_strings, opt_view};

pub mod target_finder;

verus! {

/// The kind of a Rust rule in a BUILD file.
#[derive(Debug, Clone, Copy, PartialEq, Eq, Structural)]
pub enum BazelTargetKind {
    Library,
    Binary,
    Test,
    TestSuite,
    DocTest,
    Benchmark,
}

/// A Rust rule of a BUILD file: its name, full label, kind, sources, and the
/// crate it refers to (`crate = ":lib"`), when it names one.
#[derive(Debug)]
pub struct BazelTarget {
    pub name: String,
    pub label: String,
    pub kind: BazelTargetKind,
    pub sources: Vec<String>,
    pub crate_ref: Option<String>,
}

impl BazelTargetKind {
    /// Everything but a library can be run.
    pub open spec fn runnable(self) -> bool {
        !(self is Library)
    }

    /// Whether a target of this kind can be run.
    pub fn is_runnable(&self) -> (r: bool)
        ensures
            r == self.runnable(),
    {
        !matches!(self, BazelTargetKind::Library)
    }
}

/// A target as values.
pub struct BazelTargetView {
    pub name: Seq<char>,
    pub label: Seq<char>,
    pub kind: BazelTargetKind,
    pub sources: Seq<Seq<char>>,
    pub crate_ref: Option<Seq<char>>,
}

impl View for BazelTarget {
    type V = BazelTargetView;

    open spec fn view(&self) -> BazelTargetView {
        BazelTargetView {
            name: self.name@,
            label: self.label@,
            kind: self.kind,
            sources: self.sources.deep_view(),
            crate_ref: opt_view(self.crate_ref),
        }
    }
}

impl BazelTarget {
    /// A copy, field by field.
    pub fn duplicate(&self) -> (r: BazelTarget)
        ensures
            r@ == self@,
    {
        BazelTarget {
            name: self.name.clone(),
            label: self.label.clone(),
            kind: self.kind,
            sources: clone_strings(&self.sources),
            crate_ref: clone_opt(&self.crate_ref),
        }
    }
}

/// The targets as values.
pub open spec fn targets_view(ts: Seq<BazelTarget>) -> Seq<BazelTargetView> {
    ts.map_values(|t: BazelTarget| t@)
}

} // verus!
