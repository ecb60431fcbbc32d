//! The contexts a named command configuration belongs to.
use vstd::prelude::*;

verus! {

/// What a command does: run a binary, run tests, build, or benchmark.
#[derive(Debug, Clone, Copy, PartialEq, Eq, Structural)]
pub enum Context {
    Run,
    Test,
    Build,
    Bench,
}

/// The key a context is stored under.
pub open spec fn context_key(c: Context) -> Seq<char> {
    match c {
        Context::Run => "run"@,
        Context::Test => "test"@,
        Context::Build => "build"@,
        Context::Bench => "bench"@,
    }
}

impl Context {
    /// The key the context is stored under.
    pub fn as_str(&self) -> (r: &'static str)
        ensures
            r@ == context_key(*self),
    {
        match self {
            Context::Run => "run",
            Context::Test => "test",
            Context::Build => "build",
            Context::Bench => "bench",
        }
    }
}

} // verus!
