//! Target selection from a file's path, per subcommand.
use vstd::prelude::*;
use crate::config::v2::target_detection::{TargetType, TargetSpec, detect_target_from_path, target_of};
use crate::config::v2::target_selection_v2::TargetSelector;
use crate::config::v2::target_selection_v2::command;

verus! {

/// The package as values.
pub open spec fn package_view(p: Option<&str>) -> Option<Seq<char>> {
    match p {
        Some(s) => Some(s@),
        None => None,
    }
}

/// The flags of a target for `cargo run`: binaries and examples only.
pub open spec fn run_flags(t: TargetSpec) -> Seq<Seq<char>> {
    match t {
        TargetSpec::Bin(n) => seq!["--bin"@, n],
        TargetSpec::Example(n) => seq!["--example"@, n],
        _ => Seq::empty(),
    }
}

/// The flags of a target for `cargo test`, `cargo bench` and `cargo build`.
pub open spec fn target_flags_of(t: TargetSpec) -> Seq<Seq<char>> {
    match t {
        TargetSpec::Lib => seq!["--lib"@],
        TargetSpec::Bin(n) => seq!["--bin"@, n],
        TargetSpec::Example(n) => seq!["--example"@, n],
        TargetSpec::Bench(n) => seq!["--bench"@, n],
        TargetSpec::NoTarget => Seq::empty(),
    }
}

/// Build target args for cargo run based on file path.
pub fn args_for_run(file_path: &str, package_name: Option<&str>) -> (r: Vec<String>)
    ensures
        r.deep_view() == run_flags(target_of(file_path@, package_view(package_name))),
{
    match detect_target_from_path(file_path, package_name) {
        TargetType::Bin(name) => TargetSelector::<command::Run>::new().bin(name.as_str()).build(),
        TargetType::Example(name) => TargetSelector::<command::Run>::new().example(name.as_str()).build(),
        _ => {
            let v: Vec<String> = Vec::new();
            assert(v.deep_view() =~= Seq::<Seq<char>>::empty());
            v
        },
    }
}

/// Build target args for cargo test based on file path.
pub fn args_for_test(file_path: &str, package_name: Option<&str>) -> (r: Vec<String>)
    ensures
        r.deep_view() == target_flags_of(target_of(file_path@, package_view(package_name))),
{
    match detect_target_from_path(file_path, package_name) {
        TargetType::Lib => TargetSelector::<command::Test>::new().lib().build(),
        TargetType::Bin(name) => TargetSelector::<command::Test>::new().bin(name.as_str()).build(),
        TargetType::Example(name) => TargetSelector::<command::Test>::new().example(name.as_str()).build(),
        TargetType::Bench(name) => TargetSelector::<command::Test>::new().bench(name.as_str()).build(),
        TargetType::NoTarget => {
            let v: Vec<String> = Vec::new();
            assert(v.deep_view() =~= Seq::<Seq<char>>::empty());
            v
        },
    }
}

/// Build target args for cargo bench based on file path.
pub fn args_for_bench(file_path: &str, package_name: Option<&str>) -> (r: Vec<String>)
    ensures
        r.deep_view() == target_flags_of(target_of(file_path@, package_view(package_name))),
{
    match detect_target_from_path(file_path, package_name) {
        TargetType::Lib => TargetSelector::<command::Bench>::new().lib().build(),
        TargetType::Bin(name) => TargetSelector::<command::Bench>::new().bin(name.as_str()).build(),
        TargetType::Example(name) => TargetSelector::<command::Bench>::new().example(name.as_str()).build(),
        TargetType::Bench(name) => TargetSelector::<command::Bench>::new().bench(name.as_str()).build(),
        TargetType::NoTarget => {
            let v: Vec<String> = Vec::new();
            assert(v.deep_view() =~= Seq::<Seq<char>>::empty());
            v
        },
    }
}

/// Build target args for cargo build based on file path.
pub fn args_for_build(file_path: &str, package_name: Option<&str>) -> (r: Vec<String>)
    ensures
        r.deep_view() == target_flags_of(target_of(file_path@, package_view(package_name))),
{
    match detect_target_from_path(file_path, package_name) {
        TargetType::Lib => TargetSelector::<command::Build>::new().lib().build(),
        TargetType::Bin(name) => TargetSelector::<command::Build>::new().bin(name.as_str()).build(),
        TargetType::Example(name) => TargetSelector::<command::Build>::new().example(name.as_str()).build(),
        TargetType::Bench(name) => TargetSelector::<command::Build>::new().bench(name.as_str()).build(),
        TargetType::NoTarget => {
            let v: Vec<String> = Vec::new();
            assert(v.deep_view() =~= Seq::<Seq<char>>::empty());
            v
        },
    }
}

} // verus!
