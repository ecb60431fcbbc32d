//! The cargo target a source file belongs to, by cargo's layout conventions.
use vstd::prelude::*;
use crate::paths::{components, path_components, stem_of};
use crate::strings::{is_suffix, last_index_of_char, str_eq, ends_with, rfind_char, slice};

verus! {

/// A cargo target.
#[derive(Debug, Clone, PartialEq)]
pub enum Target {
    Lib,
    Bin(String),
    Example(String),
    Test(String),
    Bench(String),
}

/// A target as values.
pub enum TargetView {
    Lib,
    Bin(Seq<char>),
    Example(Seq<char>),
    Test(Seq<char>),
    Bench(Seq<char>),
}

impl View for Target {
    type V = TargetView;

    open spec fn view(&self) -> TargetView {
        match self {
            Target::Lib => TargetView::Lib,
            Target::Bin(n) => TargetView::Bin(n@),
            Target::Example(n) => TargetView::Example(n@),
            Target::Test(n) => TargetView::Test(n@),
            Target::Bench(n) => TargetView::Bench(n@),
        }
    }
}

/// The target of a file: `src/lib.rs` is the library, `src/main.rs` the
/// binary `main`, `src/bin/<name>.rs` and `src/bin/<name>/main.rs` the binary
/// `<name>`, and a `.rs` file directly in `examples`, `tests` or `benches` the
/// example, integration test or benchmark named by its stem.
pub open spec fn target_of_path(p: Seq<char>) -> Option<TargetView> {
    let c = components(p);
    let n = c.len();
    if n < 2 {
        None
    } else {
        let file = c[n - 1];
        let parent = c[n - 2];
        let rs = is_suffix(".rs"@, file);
        if parent == "src"@ && file == "lib.rs"@ {
            Some(TargetView::Lib)
        } else if parent == "src"@ && file == "main.rs"@ {
            Some(TargetView::Bin("main"@))
        } else if n >= 3 && c[n - 3] == "src"@ && parent == "bin"@ && rs {
            Some(TargetView::Bin(stem_of(file)))
        } else if n >= 4 && c[n - 4] == "src"@ && c[n - 3] == "bin"@ && file == "main.rs"@ {
            Some(TargetView::Bin(parent))
        } else if rs && parent == "examples"@ {
            Some(TargetView::Example(stem_of(file)))
        } else if rs && parent == "tests"@ {
            Some(TargetView::Test(stem_of(file)))
        } else if rs && parent == "benches"@ {
            Some(TargetView::Bench(stem_of(file)))
        } else {
            None
        }
    }
}

/// The file name without its extension.
fn name_stem(name: &str) -> (r: String)
    ensures
        r@ == stem_of(name@),
{
    match rfind_char(name, '.') {
        Some(dot) => if dot > 0 {
            slice(name, 0, dot)
        } else {
            String::from_str(name)
        },
        None => String::from_str(name),
    }
}

impl Target {
    /// The target a source file belongs to, when cargo's layout names one.
    pub fn from_file_path(path: &str) -> (r: Option<Target>)
        ensures
            match r {
                Some(t) => target_of_path(path@) == Some(t@),
                None => target_of_path(path@) is None,
            },
    {
        let c = path_components(path);
        let n = c.len();
        assert(c.deep_view().len() == n);
        if n < 2 {
            return None;
        }
        let file = c[n - 1].as_str();
        let parent = c[n - 2].as_str();
        assert(file@ == components(path@)[n - 1]);
        assert(parent@ == components(path@)[n - 2]);
        let rs = ends_with(file, ".rs");
        if str_eq(parent, "src") && str_eq(file, "lib.rs") {
            Some(Target::Lib)
        } else if str_eq(parent, "src") && str_eq(file, "main.rs") {
            Some(Target::Bin(String::from_str("main")))
        } else if n >= 3 && str_eq(c[n - 3].as_str(), "src") && str_eq(parent, "bin") && rs {
            Some(Target::Bin(name_stem(file)))
        } else if n >= 4 && str_eq(c[n - 4].as_str(), "src") && str_eq(c[n - 3].as_str(), "bin") && str_eq(
            file,
            "main.rs",
        ) {
            Some(Target::Bin(String::from_str(parent)))
        } else if rs && str_eq(parent, "examples") {
            Some(Target::Example(name_stem(file)))
        } else if rs && str_eq(parent, "tests") {
            Some(Target::Test(name_stem(file)))
        } else if rs && str_eq(parent, "benches") {
            Some(Target::Bench(name_stem(file)))
        } else {
            None
        }
    }
}

} // verus!
