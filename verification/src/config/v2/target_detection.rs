//! Which cargo target a file belongs to, read from its path.
use vstd::prelude::*;
use crate::paths::{file_stem, file_stem_spec};
use crate::strings::{is_prefix, is_suffix, seq_contains, qualified, contains, starts_with, ends_with, qualify};
use crate::types::push_string;

verus! {

/// The cargo target a file belongs to.
#[derive(Debug, Clone, PartialEq)]
pub enum TargetType {
    Bin(String),
    Lib,
    Example(String),
    Bench(String),
    NoTarget,
}

/// The flags that select a target.
pub open spec fn target_args(t: TargetType) -> Seq<Seq<char>> {
    match t {
        TargetType::Bin(n) => seq!["--bin"@, n@],
        TargetType::Lib => seq!["--lib"@],
        TargetType::Example(n) => seq!["--example"@, n@],
        TargetType::Bench(n) => seq!["--bench"@, n@],
        TargetType::NoTarget => Seq::empty(),
    }
}

impl TargetType {
    /// Add target flags to args vector.
    pub fn add_to_args(&self, args: &mut Vec<String>)
        ensures
            final(args).deep_view() == old(args).deep_view() + target_args(*self),
    {
        let ghost start = args.deep_view();
        match self {
            TargetType::Bin(name) => {
                push_string(args, String::from_str("--bin"));
                push_string(args, name.clone());
            },
            TargetType::Lib => {
                push_string(args, String::from_str("--lib"));
            },
            TargetType::Example(name) => {
                push_string(args, String::from_str("--example"));
                push_string(args, name.clone());
            },
            TargetType::Bench(name) => {
                push_string(args, String::from_str("--bench"));
                push_string(args, name.clone());
            },
            TargetType::NoTarget => {},
        }
        assert(args.deep_view() =~= start + target_args(*self));
    }
}

/// The path lies in a directory called `dir` (given with both separators).
pub open spec fn in_dir_spec(f: Seq<char>, slash: Seq<char>, back: Seq<char>, lead_slash: Seq<char>, lead_back: Seq<char>) -> bool {
    seq_contains(f, slash) || seq_contains(f, back) || is_prefix(lead_slash, f) || is_prefix(lead_back, f)
}

/// The file is a benchmark: it lies in a `benches` directory.
pub open spec fn benchmark_path(f: Seq<char>) -> bool {
    in_dir_spec(f, "/benches/"@, "\\benches\\"@, "benches/"@, "benches\\"@)
}

/// The file is an example: it lies in an `examples` directory.
pub open spec fn example_path(f: Seq<char>) -> bool {
    in_dir_spec(f, "/examples/"@, "\\examples\\"@, "examples/"@, "examples\\"@)
}

/// The file is a binary of `src/bin`.
pub open spec fn bin_dir_path(f: Seq<char>) -> bool {
    in_dir_spec(f, "/src/bin/"@, "\\src\\bin\\"@, "src/bin/"@, "src\\bin\\"@) && is_suffix(".rs"@, f)
}

/// The target of a file: the benchmark or example it is, the package's
/// binary for `src/main.rs`, a binary of `src/bin`, the library for
/// `src/lib.rs`, or none.
pub open spec fn target_of(f: Seq<char>, package: Option<Seq<char>>) -> TargetSpec {
    if benchmark_path(f) && file_stem_spec(f) is Some {
        TargetSpec::Bench(file_stem_spec(f)->0)
    } else if example_path(f) && file_stem_spec(f) is Some {
        TargetSpec::Example(file_stem_spec(f)->0)
    } else if (is_suffix("src/main.rs"@, f) || is_suffix("\\src\\main.rs"@, f)) && package is Some {
        TargetSpec::Bin(package->0)
    } else if bin_dir_path(f) && file_stem_spec(f) is Some {
        TargetSpec::Bin(file_stem_spec(f)->0)
    } else if is_suffix("src/lib.rs"@, f) || is_suffix("\\src\\lib.rs"@, f) {
        TargetSpec::Lib
    } else {
        TargetSpec::NoTarget
    }
}

/// A target as values.
pub enum TargetSpec {
    Bin(Seq<char>),
    Lib,
    Example(Seq<char>),
    Bench(Seq<char>),
    NoTarget,
}

/// A target's values.
pub open spec fn target_view(t: TargetType) -> TargetSpec {
    match t {
        TargetType::Bin(n) => TargetSpec::Bin(n@),
        TargetType::Lib => TargetSpec::Lib,
        TargetType::Example(n) => TargetSpec::Example(n@),
        TargetType::Bench(n) => TargetSpec::Bench(n@),
        TargetType::NoTarget => TargetSpec::NoTarget,
    }
}

/// Detect target type from file path.
pub fn detect_target_from_path(file_path: &str, package_name: Option<&str>) -> (r: TargetType)
    ensures
        target_view(r) == target_of(file_path@, match package_name {
            Some(p) => Some(p@),
            None => None,
        }),
{
    if is_benchmark_file(file_path) {
        match file_stem(file_path) {
            Some(s) => return TargetType::Bench(s),
            None => {},
        }
    }
    if is_example_file(file_path) {
        match file_stem(file_path) {
            Some(s) => return TargetType::Example(s),
            None => {},
        }
    }
    if ends_with(file_path, "src/main.rs") || ends_with(file_path, "\\src\\main.rs") {
        match package_name {
            Some(p) => return TargetType::Bin(String::from_str(p)),
            None => {},
        }
    }
    if (contains(file_path, "/src/bin/") || contains(file_path, "\\src\\bin\\") || starts_with(file_path, "src/bin/")
        || starts_with(file_path, "src\\bin\\")) && ends_with(file_path, ".rs") {
        match file_stem(file_path) {
            Some(s) => return TargetType::Bin(s),
            None => {},
        }
    }
    if ends_with(file_path, "src/lib.rs") || ends_with(file_path, "\\src\\lib.rs") {
        return TargetType::Lib;
    }
    TargetType::NoTarget
}

/// Check if a file is in a benchmark directory.
pub fn is_benchmark_file(file_path: &str) -> (r: bool)
    ensures
        r == benchmark_path(file_path@),
{
    contains(file_path, "/benches/") || contains(file_path, "\\benches\\") || starts_with(file_path, "benches/")
        || starts_with(file_path, "benches\\")
}

/// Check if a file is in an examples directory.
pub fn is_example_file(file_path: &str) -> (r: bool)
    ensures
        r == example_path(file_path@),
{
    contains(file_path, "/examples/") || contains(file_path, "\\examples\\") || starts_with(file_path, "examples/")
        || starts_with(file_path, "examples\\")
}

/// `module::test`, or the test name alone when the module is missing or empty.
pub open spec fn test_path_spec(module: Option<Seq<char>>, test_name: Seq<char>) -> Seq<char> {
    match module {
        Some(m) => if m.len() > 0 {
            qualified(m, test_name)
        } else {
            test_name
        },
        None => test_name,
    }
}

/// Build a fully qualified test path from module and test name.
pub fn build_test_path(mod_path: Option<&str>, test_name: &str) -> (r: String)
    ensures
        r@ == test_path_spec(match mod_path {
            Some(m) => Some(m@),
            None => None,
        }, test_name@),
{
    match mod_path {
        Some(m) => if m.unicode_len() > 0 {
            qualify(m, test_name)
        } else {
            String::from_str(test_name)
        },
        None => String::from_str(test_name),
    }
}

} // verus!
