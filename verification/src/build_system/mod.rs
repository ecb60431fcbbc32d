//! Build systems and how a project's files tell which one it uses.
use vstd::prelude::*;

pub mod bazel;

verus! {

/// The build system that runs a project.
#[derive(Debug, Clone, Copy, PartialEq, Eq, Hash, Structural)]
pub enum BuildSystem {
    Cargo,
    Bazel,
    Rustc,
    CargoScript,
}

/// What the file system shows about a path, as far as build-system
/// detection needs it.
#[derive(Debug, Clone, Copy, PartialEq, Eq, Structural)]
pub struct PathFacts {
    /// `BUILD.bazel` exists in the directory.
    pub has_build_bazel: bool,
    /// `BUILD` exists in the directory.
    pub has_build: bool,
    /// `Cargo.toml` exists in the directory.
    pub has_cargo_toml: bool,
    /// The path is a file with the `.rs` extension.
    pub is_rust_file: bool,
    /// Some directory above the path holds a `Cargo.toml`.
    pub ancestor_has_cargo_toml: bool,
}

/// The build system the facts about a path point to: Bazel when a BUILD
/// file is present (checked first, since a project may have both), Cargo
/// when a `Cargo.toml` is, and for a lone `.rs` file Cargo when it sits
/// inside a Cargo project, otherwise plain rustc.
pub open spec fn detect_spec(f: PathFacts) -> Option<BuildSystem> {
    if f.has_build_bazel || f.has_build {
        Some(BuildSystem::Bazel)
    } else if f.has_cargo_toml {
        Some(BuildSystem::Cargo)
    } else if f.is_rust_file {
        if f.ancestor_has_cargo_toml {
            Some(BuildSystem::Cargo)
        } else {
            Some(BuildSystem::Rustc)
        }
    } else {
        None
    }
}

/// Detects the build system of a project path.
pub trait BuildSystemDetector {
    fn detect(&self, facts: &PathFacts) -> Option<BuildSystem>;
}

/// The detector used by default.
pub struct DefaultBuildSystemDetector;

impl DefaultBuildSystemDetector {
    /// The build system the facts about a path point to.
    pub fn detect_build_system(&self, facts: &PathFacts) -> (r: Option<BuildSystem>)
        ensures
            r == detect_spec(*facts),
    {
        if facts.has_build_bazel || facts.has_build {
            Some(BuildSystem::Bazel)
        } else if facts.has_cargo_toml {
            Some(BuildSystem::Cargo)
        } else if facts.is_rust_file {
            if facts.ancestor_has_cargo_toml {
                Some(BuildSystem::Cargo)
            } else {
                Some(BuildSystem::Rustc)
            }
        } else {
            None
        }
    }
}

impl BuildSystemDetector for DefaultBuildSystemDetector {
    fn detect(&self, facts: &PathFacts) -> (r: Option<BuildSystem>)
        ensures
            r == detect_spec(*facts),
    {
        self.detect_build_system(facts)
    }
}

} // verus!
