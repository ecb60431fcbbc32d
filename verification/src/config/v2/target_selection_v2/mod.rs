//! Target selection whose types allow only the flags a cargo subcommand
//! accepts, and only one selection.
use vstd::prelude::*;
use std::marker::PhantomData;
use crate::types::push_string;

pub mod command;
pub mod state;
pub mod smart;

verus! {

/// Target selector with command and state type parameters.
pub struct TargetSelector<Cmd, State = state::NoTarget> {
    args: Vec<String>,
    _phantom: PhantomData<(Cmd, State)>,
}

impl<Cmd, State> View for TargetSelector<Cmd, State> {
    type V = Seq<Seq<char>>;

    closed spec fn view(&self) -> Seq<Seq<char>> {
        self.args.deep_view()
    }
}

impl<Cmd> TargetSelector<Cmd, state::NoTarget> {
    /// Create a new target selector for a specific command.
    pub fn new() -> (r: Self)
        ensures
            r@ == Seq::<Seq<char>>::empty(),
    {
        let r = TargetSelector { args: Vec::new(), _phantom: PhantomData };
        assert(r.args.deep_view() =~= Seq::<Seq<char>>::empty());
        r
    }
}

/// Moves the arguments into a selector of another state.
fn to_state<Cmd, A, B>(s: TargetSelector<Cmd, A>) -> (r: TargetSelector<Cmd, B>)
    ensures
        r@ == s@,
{
    TargetSelector { args: s.args, _phantom: PhantomData }
}

/// Appends a flag and, when given, its value.
fn with_flag<Cmd, A, B>(s: TargetSelector<Cmd, A>, flag: &str, name: Option<&str>) -> (r: TargetSelector<Cmd, B>)
    ensures
        r@ == s@ + match name {
            Some(n) => seq![flag@, n@],
            None => seq![flag@],
        },
{
    let mut args = s.args;
    let ghost start = args.deep_view();
    push_string(&mut args, String::from_str(flag));
    match name {
        Some(n) => push_string(&mut args, String::from_str(n)),
        None => {},
    }
    let r = TargetSelector { args, _phantom: PhantomData };
    assert(r@ =~= start + match name {
        Some(n) => seq![flag@, n@],
        None => seq![flag@],
    });
    r
}

/// The targets `cargo run` accepts.
impl TargetSelector<command::Run, state::NoTarget> {
    /// Select a binary (`--bin NAME`).
    pub fn bin(self, name: &str) -> (r: TargetSelector<command::Run, state::Binary>)
        ensures
            r@ == self@ + seq!["--bin"@, name@],
    {
        with_flag(self, "--bin", Some(name))
    }

    /// Select an example (`--example NAME`).
    pub fn example(self, name: &str) -> (r: TargetSelector<command::Run, state::Example>)
        ensures
            r@ == self@ + seq!["--example"@, name@],
    {
        with_flag(self, "--example", Some(name))
    }
}

/// The targets `cargo test` accepts.
impl TargetSelector<command::Test, state::NoTarget> {
    /// Select the library (`--lib`).
    pub fn lib(self) -> (r: TargetSelector<command::Test, state::Library>)
        ensures
            r@ == self@ + seq!["--lib"@],
    {
        with_flag(self, "--lib", None)
    }

    /// Select a binary (`--bin NAME`).
    pub fn bin(self, name: &str) -> (r: TargetSelector<command::Test, state::Binary>)
        ensures
            r@ == self@ + seq!["--bin"@, name@],
    {
        with_flag(self, "--bin", Some(name))
    }

    /// Select an example (`--example NAME`).
    pub fn example(self, name: &str) -> (r: TargetSelector<command::Test, state::Example>)
        ensures
            r@ == self@ + seq!["--example"@, name@],
    {
        with_flag(self, "--example", Some(name))
    }

    /// Select a test target (`--test NAME`).
    pub fn test(self, name: &str) -> (r: TargetSelector<command::Test, state::TestTarget>)
        ensures
            r@ == self@ + seq!["--test"@, name@],
    {
        with_flag(self, "--test", Some(name))
    }

    /// Select a benchmark (`--bench NAME`).
    pub fn bench(self, name: &str) -> (r: TargetSelector<command::Test, state::Benchmark>)
        ensures
            r@ == self@ + seq!["--bench"@, name@],
    {
        with_flag(self, "--bench", Some(name))
    }

    /// Select the documentation (`--doc`).
    pub fn doc(self) -> (r: TargetSelector<command::Test, state::Doc>)
        ensures
            r@ == self@ + seq!["--doc"@],
    {
        with_flag(self, "--doc", None)
    }
}

/// The targets `cargo bench` accepts.
impl TargetSelector<command::Bench, state::NoTarget> {
    /// Select the library (`--lib`).
    pub fn lib(self) -> (r: TargetSelector<command::Bench, state::Library>)
        ensures
            r@ == self@ + seq!["--lib"@],
    {
        with_flag(self, "--lib", None)
    }

    /// Select a binary (`--bin NAME`).
    pub fn bin(self, name: &str) -> (r: TargetSelector<command::Bench, state::Binary>)
        ensures
            r@ == self@ + seq!["--bin"@, name@],
    {
        with_flag(self, "--bin", Some(name))
    }

    /// Select an example (`--example NAME`).
    pub fn example(self, name: &str) -> (r: TargetSelector<command::Bench, state::Example>)
        ensures
            r@ == self@ + seq!["--example"@, name@],
    {
        with_flag(self, "--example", Some(name))
    }

    /// Select a test target (`--test NAME`).
    pub fn test(self, name: &str) -> (r: TargetSelector<command::Bench, state::TestTarget>)
        ensures
            r@ == self@ + seq!["--test"@, name@],
    {
        with_flag(self, "--test", Some(name))
    }

    /// Select a benchmark (`--bench NAME`).
    pub fn bench(self, name: &str) -> (r: TargetSelector<command::Bench, state::Benchmark>)
        ensures
            r@ == self@ + seq!["--bench"@, name@],
    {
        with_flag(self, "--bench", Some(name))
    }
}

/// The targets `cargo build` accepts.
impl TargetSelector<command::Build, state::NoTarget> {
    /// Select the library (`--lib`).
    pub fn lib(self) -> (r: TargetSelector<command::Build, state::Library>)
        ensures
            r@ == self@ + seq!["--lib"@],
    {
        with_flag(self, "--lib", None)
    }

    /// Select a binary (`--bin NAME`).
    pub fn bin(self, name: &str) -> (r: TargetSelector<command::Build, state::Binary>)
        ensures
            r@ == self@ + seq!["--bin"@, name@],
    {
        with_flag(self, "--bin", Some(name))
    }

    /// Select an example (`--example NAME`).
    pub fn example(self, name: &str) -> (r: TargetSelector<command::Build, state::Example>)
        ensures
            r@ == self@ + seq!["--example"@, name@],
    {
        with_flag(self, "--example", Some(name))
    }

    /// Select a test target (`--test NAME`).
    pub fn test(self, name: &str) -> (r: TargetSelector<command::Build, state::TestTarget>)
        ensures
            r@ == self@ + seq!["--test"@, name@],
    {
        with_flag(self, "--test", Some(name))
    }

    /// Select a benchmark (`--bench NAME`).
    pub fn bench(self, name: &str) -> (r: TargetSelector<command::Build, state::Benchmark>)
        ensures
            r@ == self@ + seq!["--bench"@, name@],
    {
        with_flag(self, "--bench", Some(name))
    }
}

impl<Cmd, State> TargetSelector<Cmd, State> {
    /// Build the arguments.
    pub fn build(self) -> (r: Vec<String>)
        ensures
            r.deep_view() == self@,
    {
        self.args
    }

    /// Get the arguments without consuming self.
    pub fn args(&self) -> (r: &[String])
        ensures
            r@.len() == self@.len(),
            forall|i: int| 0 <= i < r@.len() ==> #[trigger] r@[i]@ == self@[i],
    {
        self.args.as_slice()
    }
}

} // verus!
