use cargo_runner_core::build_system::{BuildSystem, DefaultBuildSystemDetector, PathFacts};

fn dir(build_bazel: bool, build: bool, cargo_toml: bool) -> PathFacts {
    PathFacts {
        has_build_bazel: build_bazel,
        has_build: build,
        has_cargo_toml: cargo_toml,
        is_rust_file: false,
        ancestor_has_cargo_toml: false,
    }
}

fn rust_file(in_cargo_project: bool) -> PathFacts {
    PathFacts {
        has_build_bazel: false,
        has_build: false,
        has_cargo_toml: false,
        is_rust_file: true,
        ancestor_has_cargo_toml: in_cargo_project,
    }
}

#[test]
fn test_detect_cargo_project() {
    // a directory holding only a Cargo.toml
    let detector = DefaultBuildSystemDetector;
    assert_eq!(detector.detect_build_system(&dir(false, false, true)), Some(BuildSystem::Cargo));
}

#[test]
fn test_detect_bazel_project_with_build_file() {
    let detector = DefaultBuildSystemDetector;
    assert_eq!(detector.detect_build_system(&dir(true, false, false)), Some(BuildSystem::Bazel));
}

#[test]
fn test_detect_bazel_project_with_module_file() {
    // MODULE.bazel alone does not make a Bazel project: it is not among the facts looked at
    let detector = DefaultBuildSystemDetector;
    assert_eq!(detector.detect_build_system(&dir(false, false, false)), None);
    // with a BUILD.bazel beside it, it does
    assert_eq!(detector.detect_build_system(&dir(true, false, false)), Some(BuildSystem::Bazel));
}

#[test]
fn test_detect_bazel_project_with_workspace() {
    // WORKSPACE alone does not make a Bazel project
    let detector = DefaultBuildSystemDetector;
    assert_eq!(detector.detect_build_system(&dir(false, false, false)), None);
    // with a BUILD beside it, it does
    assert_eq!(detector.detect_build_system(&dir(false, true, false)), Some(BuildSystem::Bazel));
}

#[test]
fn test_prefer_bazel_over_cargo() {
    let detector = DefaultBuildSystemDetector;
    assert_eq!(detector.detect_build_system(&dir(true, false, true)), Some(BuildSystem::Bazel));
}

#[test]
fn test_no_build_system() {
    let detector = DefaultBuildSystemDetector;
    assert_eq!(detector.detect_build_system(&dir(false, false, false)), None);
}

#[test]
fn test_detect_standalone_rust_file() {
    let detector = DefaultBuildSystemDetector;
    assert_eq!(detector.detect_build_system(&rust_file(false)), Some(BuildSystem::Rustc));
}

#[test]
fn test_rust_file_in_cargo_project() {
    // even though it is a .rs file, the Cargo.toml above it makes it Cargo
    let detector = DefaultBuildSystemDetector;
    assert_eq!(detector.detect_build_system(&rust_file(true)), Some(BuildSystem::Cargo));
}
