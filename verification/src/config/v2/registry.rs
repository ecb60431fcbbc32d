//! The registry of framework strategies, looked up by name.
use vstd::prelude::*;
use crate::command::cargo_command::{CargoCommand, CargoCommandView};
use crate::config::v2::strategy::{
    CommandContext, FrameworkKind, FrameworkStrategy,
    CargoTestStrategy, CargoNextestStrategy, CargoRunStrategy, CargoBenchStrategy, CargoDocTestStrategy, CargoBuildStrategy, BazelTestStrategy, BazelRunStrategy, BazelBenchStrategy, BazelBuildStrategy, LeptosWatchStrategy, DioxusServeStrategy, TrunkServeStrategy, CargoTauriStrategy, CargoLeptosStrategy, CargoShuttleStrategy, DxServeStrategy, RustcRunStrategy, RustcTestStrategy, CargoScriptRunStrategy, CargoScriptTestStrategy,
};
use crate::strings::str_eq;

verus! {

/// One of the framework strategies this crate provides.
#[derive(Debug)]
pub enum Strategy {
    CargoTest(CargoTestStrategy),
    CargoNextest(CargoNextestStrategy),
    CargoRun(CargoRunStrategy),
    CargoBench(CargoBenchStrategy),
    CargoDocTest(CargoDocTestStrategy),
    CargoBuild(CargoBuildStrategy),
    BazelTest(BazelTestStrategy),
    BazelRun(BazelRunStrategy),
    BazelBench(BazelBenchStrategy),
    BazelBuild(BazelBuildStrategy),
    LeptosWatch(LeptosWatchStrategy),
    DioxusServe(DioxusServeStrategy),
    TrunkServe(TrunkServeStrategy),
    CargoTauri(CargoTauriStrategy),
    CargoLeptos(CargoLeptosStrategy),
    CargoShuttle(CargoShuttleStrategy),
    DxServe(DxServeStrategy),
    RustcRun(RustcRunStrategy),
    RustcTest(RustcTestStrategy),
    CargoScriptRun(CargoScriptRunStrategy),
    CargoScriptTest(CargoScriptTestStrategy),
}

impl Strategy {
    /// The strategy as its constructor gives it.
    pub open spec fn is_fresh(self) -> bool {
        match self {
            Strategy::CargoTest(s) => s.base.name@ == "cargo-test"@ && s.base.subcommand@ == "test"@ && s.base.channel is None && s.base.default_args.deep_view() == Seq::<Seq<char>>::empty(),
            Strategy::CargoNextest(s) => s.base.name@ == "cargo-nextest"@ && s.base.subcommand@ == "nextest"@ && s.base.channel is None && s.base.default_args.deep_view() == seq!["run"@],
            Strategy::CargoRun(s) => s.base.name@ == "cargo-run"@ && s.base.subcommand@ == "run"@ && s.base.channel is None && s.base.default_args.deep_view() == Seq::<Seq<char>>::empty(),
            Strategy::CargoBench(s) => s.base.name@ == "cargo-bench"@ && s.base.subcommand@ == "bench"@ && s.base.channel is None && s.base.default_args.deep_view() == Seq::<Seq<char>>::empty(),
            Strategy::CargoDocTest(s) => s.base.name@ == "cargo-doctest"@ && s.base.subcommand@ == "test"@ && s.base.channel is None && s.base.default_args.deep_view() == seq!["--doc"@],
            Strategy::CargoBuild(s) => s.base.name@ == "cargo-build"@ && s.base.subcommand@ == "build"@ && s.base.channel is None && s.base.default_args.deep_view() == Seq::<Seq<char>>::empty(),
            Strategy::BazelTest(s) => s.name@ == "bazel-test"@,
            Strategy::BazelRun(s) => s.name@ == "bazel-run"@,
            Strategy::BazelBench(s) => s.name@ == "bazel-bench"@,
            Strategy::BazelBuild(s) => s.name@ == "bazel-build"@,
            Strategy::LeptosWatch(s) => s.name@ == "leptos-watch"@,
            Strategy::DioxusServe(s) => s.name@ == "dx-serve"@,
            Strategy::TrunkServe(s) => s.name@ == "trunk-serve"@,
            Strategy::CargoTauri(s) => s.name@ == "cargo-tauri"@,
            Strategy::CargoLeptos(s) => s.name@ == "cargo-leptos"@,
            Strategy::CargoShuttle(s) => s.name@ == "cargo-shuttle"@,
            Strategy::DxServe(s) => s.name@ == "dx-serve"@,
            Strategy::RustcRun(s) => s.name@ == "rustc-run"@,
            Strategy::RustcTest(s) => s.name@ == "rustc-test"@,
            Strategy::CargoScriptRun(s) => s.name@ == "cargo-script-run"@,
            Strategy::CargoScriptTest(s) => s.name@ == "cargo-script-test"@,
        }
    }
}

impl FrameworkStrategy for Strategy {
    open spec fn command_spec(&self, c: CommandContext) -> Result<CargoCommandView, Seq<char>> {
        match self {
            Strategy::CargoTest(s) => s.command_spec(c),
            Strategy::CargoNextest(s) => s.command_spec(c),
            Strategy::CargoRun(s) => s.command_spec(c),
            Strategy::CargoBench(s) => s.command_spec(c),
            Strategy::CargoDocTest(s) => s.command_spec(c),
            Strategy::CargoBuild(s) => s.command_spec(c),
            Strategy::BazelTest(s) => s.command_spec(c),
            Strategy::BazelRun(s) => s.command_spec(c),
            Strategy::BazelBench(s) => s.command_spec(c),
            Strategy::BazelBuild(s) => s.command_spec(c),
            Strategy::LeptosWatch(s) => s.command_spec(c),
            Strategy::DioxusServe(s) => s.command_spec(c),
            Strategy::TrunkServe(s) => s.command_spec(c),
            Strategy::CargoTauri(s) => s.command_spec(c),
            Strategy::CargoLeptos(s) => s.command_spec(c),
            Strategy::CargoShuttle(s) => s.command_spec(c),
            Strategy::DxServe(s) => s.command_spec(c),
            Strategy::RustcRun(s) => s.command_spec(c),
            Strategy::RustcTest(s) => s.command_spec(c),
            Strategy::CargoScriptRun(s) => s.command_spec(c),
            Strategy::CargoScriptTest(s) => s.command_spec(c),
        }
    }

    open spec fn name_spec(&self) -> Seq<char> {
        match self {
            Strategy::CargoTest(s) => s.name_spec(),
            Strategy::CargoNextest(s) => s.name_spec(),
            Strategy::CargoRun(s) => s.name_spec(),
            Strategy::CargoBench(s) => s.name_spec(),
            Strategy::CargoDocTest(s) => s.name_spec(),
            Strategy::CargoBuild(s) => s.name_spec(),
            Strategy::BazelTest(s) => s.name_spec(),
            Strategy::BazelRun(s) => s.name_spec(),
            Strategy::BazelBench(s) => s.name_spec(),
            Strategy::BazelBuild(s) => s.name_spec(),
            Strategy::LeptosWatch(s) => s.name_spec(),
            Strategy::DioxusServe(s) => s.name_spec(),
            Strategy::TrunkServe(s) => s.name_spec(),
            Strategy::CargoTauri(s) => s.name_spec(),
            Strategy::CargoLeptos(s) => s.name_spec(),
            Strategy::CargoShuttle(s) => s.name_spec(),
            Strategy::DxServe(s) => s.name_spec(),
            Strategy::RustcRun(s) => s.name_spec(),
            Strategy::RustcTest(s) => s.name_spec(),
            Strategy::CargoScriptRun(s) => s.name_spec(),
            Strategy::CargoScriptTest(s) => s.name_spec(),
        }
    }

    open spec fn kind_spec(&self) -> FrameworkKind {
        match self {
            Strategy::CargoTest(s) => s.kind_spec(),
            Strategy::CargoNextest(s) => s.kind_spec(),
            Strategy::CargoRun(s) => s.kind_spec(),
            Strategy::CargoBench(s) => s.kind_spec(),
            Strategy::CargoDocTest(s) => s.kind_spec(),
            Strategy::CargoBuild(s) => s.kind_spec(),
            Strategy::BazelTest(s) => s.kind_spec(),
            Strategy::BazelRun(s) => s.kind_spec(),
            Strategy::BazelBench(s) => s.kind_spec(),
            Strategy::BazelBuild(s) => s.kind_spec(),
            Strategy::LeptosWatch(s) => s.kind_spec(),
            Strategy::DioxusServe(s) => s.kind_spec(),
            Strategy::TrunkServe(s) => s.kind_spec(),
            Strategy::CargoTauri(s) => s.kind_spec(),
            Strategy::CargoLeptos(s) => s.kind_spec(),
            Strategy::CargoShuttle(s) => s.kind_spec(),
            Strategy::DxServe(s) => s.kind_spec(),
            Strategy::RustcRun(s) => s.kind_spec(),
            Strategy::RustcTest(s) => s.kind_spec(),
            Strategy::CargoScriptRun(s) => s.kind_spec(),
            Strategy::CargoScriptTest(s) => s.kind_spec(),
        }
    }

    fn build_command(&self, context: &CommandContext) -> (r: Result<CargoCommand, String>) {
        match self {
            Strategy::CargoTest(s) => s.build_command(context),
            Strategy::CargoNextest(s) => s.build_command(context),
            Strategy::CargoRun(s) => s.build_command(context),
            Strategy::CargoBench(s) => s.build_command(context),
            Strategy::CargoDocTest(s) => s.build_command(context),
            Strategy::CargoBuild(s) => s.build_command(context),
            Strategy::BazelTest(s) => s.build_command(context),
            Strategy::BazelRun(s) => s.build_command(context),
            Strategy::BazelBench(s) => s.build_command(context),
            Strategy::BazelBuild(s) => s.build_command(context),
            Strategy::LeptosWatch(s) => s.build_command(context),
            Strategy::DioxusServe(s) => s.build_command(context),
            Strategy::TrunkServe(s) => s.build_command(context),
            Strategy::CargoTauri(s) => s.build_command(context),
            Strategy::CargoLeptos(s) => s.build_command(context),
            Strategy::CargoShuttle(s) => s.build_command(context),
            Strategy::DxServe(s) => s.build_command(context),
            Strategy::RustcRun(s) => s.build_command(context),
            Strategy::RustcTest(s) => s.build_command(context),
            Strategy::CargoScriptRun(s) => s.build_command(context),
            Strategy::CargoScriptTest(s) => s.build_command(context),
        }
    }

    fn name(&self) -> (r: &str) {
        match self {
            Strategy::CargoTest(s) => s.name(),
            Strategy::CargoNextest(s) => s.name(),
            Strategy::CargoRun(s) => s.name(),
            Strategy::CargoBench(s) => s.name(),
            Strategy::CargoDocTest(s) => s.name(),
            Strategy::CargoBuild(s) => s.name(),
            Strategy::BazelTest(s) => s.name(),
            Strategy::BazelRun(s) => s.name(),
            Strategy::BazelBench(s) => s.name(),
            Strategy::BazelBuild(s) => s.name(),
            Strategy::LeptosWatch(s) => s.name(),
            Strategy::DioxusServe(s) => s.name(),
            Strategy::TrunkServe(s) => s.name(),
            Strategy::CargoTauri(s) => s.name(),
            Strategy::CargoLeptos(s) => s.name(),
            Strategy::CargoShuttle(s) => s.name(),
            Strategy::DxServe(s) => s.name(),
            Strategy::RustcRun(s) => s.name(),
            Strategy::RustcTest(s) => s.name(),
            Strategy::CargoScriptRun(s) => s.name(),
            Strategy::CargoScriptTest(s) => s.name(),
        }
    }

    fn framework_kind(&self) -> (r: FrameworkKind) {
        match self {
            Strategy::CargoTest(s) => s.framework_kind(),
            Strategy::CargoNextest(s) => s.framework_kind(),
            Strategy::CargoRun(s) => s.framework_kind(),
            Strategy::CargoBench(s) => s.framework_kind(),
            Strategy::CargoDocTest(s) => s.framework_kind(),
            Strategy::CargoBuild(s) => s.framework_kind(),
            Strategy::BazelTest(s) => s.framework_kind(),
            Strategy::BazelRun(s) => s.framework_kind(),
            Strategy::BazelBench(s) => s.framework_kind(),
            Strategy::BazelBuild(s) => s.framework_kind(),
            Strategy::LeptosWatch(s) => s.framework_kind(),
            Strategy::DioxusServe(s) => s.framework_kind(),
            Strategy::TrunkServe(s) => s.framework_kind(),
            Strategy::CargoTauri(s) => s.framework_kind(),
            Strategy::CargoLeptos(s) => s.framework_kind(),
            Strategy::CargoShuttle(s) => s.framework_kind(),
            Strategy::DxServe(s) => s.framework_kind(),
            Strategy::RustcRun(s) => s.framework_kind(),
            Strategy::RustcTest(s) => s.framework_kind(),
            Strategy::CargoScriptRun(s) => s.framework_kind(),
            Strategy::CargoScriptTest(s) => s.framework_kind(),
        }
    }
}

/// Position of the strategy named `n`, or -1.
pub open spec fn name_position(s: Seq<Strategy>, n: Seq<char>) -> int
    decreases s.len(),
{
    if s.len() == 0 {
        -1
    } else if s.last().name_spec() == n {
        s.len() - 1
    } else {
        name_position(s.drop_last(), n)
    }
}

/// The strategy registered under `n`.
pub open spec fn lookup(s: Seq<Strategy>, n: Seq<char>) -> Option<Strategy> {
    if name_position(s, n) >= 0 {
        Some(s[name_position(s, n)])
    } else {
        None
    }
}

/// `s` with `st` registered: it replaces the strategy of the same name, or is appended.
pub open spec fn registered(s: Seq<Strategy>, st: Strategy) -> Seq<Strategy> {
    if name_position(s, st.name_spec()) >= 0 {
        s.update(name_position(s, st.name_spec()), st)
    } else {
        s.push(st)
    }
}

/// No two strategies share a name.
pub open spec fn names_distinct(s: Seq<Strategy>) -> bool {
    forall|i: int, j: int| 0 <= i < j < s.len() ==> s[i].name_spec() != s[j].name_spec()
}

/// The names of the strategies, in order.
pub open spec fn names_of(s: Seq<Strategy>) -> Seq<Seq<char>> {
    s.map_values(|st: Strategy| st.name_spec())
}

pub proof fn lemma_name_position(s: Seq<Strategy>, n: Seq<char>)
    ensures
        -1 <= name_position(s, n) < s.len(),
        name_position(s, n) >= 0 ==> s[name_position(s, n)].name_spec() == n,
        name_position(s, n) < 0 ==> forall|j: int| 0 <= j < s.len() ==> s[j].name_spec() != n,
    decreases s.len(),
{
    if s.len() > 0 && s.last().name_spec() != n {
        lemma_name_position(s.drop_last(), n);
        if name_position(s, n) < 0 {
            assert forall|j: int| 0 <= j < s.len() implies s[j].name_spec() != n by {
                if j < s.len() - 1 {
                    assert(s.drop_last()[j] == s[j]);
                }
            }
        }
    }
}

/// With distinct names, a strategy is found exactly at its own position.
pub proof fn lemma_position_of_distinct(s: Seq<Strategy>, i: int)
    requires
        names_distinct(s),
        0 <= i < s.len(),
    ensures
        name_position(s, s[i].name_spec()) == i,
    decreases s.len(),
{
    if i < s.len() - 1 {
        assert(s.last().name_spec() != s[i].name_spec());
        assert(s.drop_last()[i] == s[i]);
        assert forall|a: int, b: int| 0 <= a < b < s.drop_last().len() implies s.drop_last()[a].name_spec() != s.drop_last()[b].name_spec() by {
            assert(s.drop_last()[a] == s[a] && s.drop_last()[b] == s[b]);
        }
        lemma_position_of_distinct(s.drop_last(), i);
    }
}

/// Registering keeps names distinct, finds the new strategy under its name
/// and leaves every other name as it was.
pub proof fn lemma_registered(s: Seq<Strategy>, st: Strategy, n: Seq<char>)
    requires
        names_distinct(s),
    ensures
        names_distinct(registered(s, st)),
        lookup(registered(s, st), st.name_spec()) == Some(st),
        n != st.name_spec() ==> lookup(registered(s, st), n) == lookup(s, n),
{
    let r = registered(s, st);
    let p = name_position(s, st.name_spec());
    lemma_name_position(s, st.name_spec());
    lemma_name_position(s, n);
    if p >= 0 {
        assert forall|i: int, j: int| 0 <= i < j < r.len() implies r[i].name_spec() != r[j].name_spec() by {
            if i == p {
                assert(s[j].name_spec() != s[p].name_spec());
            } else if j == p {
                assert(s[i].name_spec() != s[p].name_spec());
            }
        }
    } else {
        assert forall|i: int, j: int| 0 <= i < j < r.len() implies r[i].name_spec() != r[j].name_spec() by {
            if j == s.len() {
                assert(r[i] == s[i]);
            }
        }
    }
    lemma_position_of_distinct(r, if p >= 0 { p } else { s.len() as int });
    if n != st.name_spec() {
        lemma_name_position(r, n);
        if name_position(s, n) >= 0 {
            let q = name_position(s, n);
            assert(q != p);
            assert(r[q] == s[q]);
            lemma_position_of_distinct(s, q);
            lemma_position_of_distinct(r, q);
        } else {
            if name_position(r, n) >= 0 {
                let q = name_position(r, n);
                if p >= 0 {
                    assert(q != p);
                    assert(r[q] == s[q]);
                } else {
                    assert(q < s.len());
                    assert(r[q] == s[q]);
                }
            }
        }
    }
}

/// Distinct names make distinct strategies' names.
pub proof fn lemma_names_distinct(s: Seq<Strategy>)
    requires
        names_of(s).no_duplicates(),
    ensures
        names_distinct(s),
{
    assert forall|i: int, j: int| 0 <= i < j < s.len() implies s[i].name_spec() != s[j].name_spec() by {
        assert(names_of(s)[i] == s[i].name_spec() && names_of(s)[j] == s[j].name_spec());
    }
}

/// Registry for framework strategies, one per name.
#[derive(Debug)]
pub struct StrategyRegistry {
    strategies: Vec<Strategy>,
}

impl View for StrategyRegistry {
    type V = Seq<Strategy>;

    closed spec fn view(&self) -> Seq<Strategy> {
        self.strategies@
    }
}

impl StrategyRegistry {
    /// Well formed: names are distinct.
    pub open spec fn wf(&self) -> bool {
        names_distinct(self@)
    }

    /// An empty registry.
    pub fn empty() -> (r: Self)
        ensures
            r@ == Seq::<Strategy>::empty(),
            r.wf(),
    {
        StrategyRegistry { strategies: Vec::new() }
    }

    /// Register a new strategy; one already registered under its name is replaced.
    pub fn register_strategy(&mut self, strategy: Strategy)
        requires
            old(self).wf(),
        ensures
            final(self).wf(),
            final(self)@ == registered(old(self)@, strategy),
    {
        let ghost s = self@;
        let n = strategy.name();
        proof {
            lemma_name_position(s, strategy.name_spec());
            lemma_registered(s, strategy, strategy.name_spec());
        }
        let mut i: usize = self.strategies.len();
        let mut found: Option<usize> = None;
        assert(s.subrange(0, i as int) =~= s);
        while i > 0 && found.is_none()
            invariant
                i <= self.strategies@.len(),
                self.strategies@ == s,
                n@ == strategy.name_spec(),
                name_position(s.subrange(0, i as int), strategy.name_spec()) == name_position(s, strategy.name_spec()),
                found matches Some(k) ==> k < s.len() && k as int == name_position(s, strategy.name_spec()),
            decreases i + if found is None { 1int } else { 0int },
        {
            let ghost sub = s.subrange(0, i as int);
            assert(sub.drop_last() =~= s.subrange(0, i - 1));
            assert(sub.last() == s[i - 1]);
            if str_eq(self.strategies[i - 1].name(), n) {
                found = Some(i - 1);
            } else {
                i = i - 1;
            }
        }
        match found {
            Some(k) => {
                self.strategies.set(k, strategy);
            },
            None => {
                assert(s.subrange(0, 0) =~= Seq::<Strategy>::empty());
                self.strategies.push(strategy);
            },
        }
    }

    /// Get a strategy by name.
    pub fn get(&self, name: &str) -> (r: Option<&Strategy>)
        ensures
            match r {
                Some(st) => lookup(self@, name@) == Some(*st),
                None => lookup(self@, name@) is None,
            },
    {
        let mut i: usize = self.strategies.len();
        assert(self@.subrange(0, i as int) =~= self@);
        while i > 0
            invariant
                i <= self@.len(),
                self.strategies@ == self@,
                name_position(self@.subrange(0, i as int), name@) == name_position(self@, name@),
            decreases i,
        {
            let ghost sub = self@.subrange(0, i as int);
            assert(sub.drop_last() =~= self@.subrange(0, i - 1));
            assert(sub.last() == self@[i - 1]);
            if str_eq(self.strategies[i - 1].name(), name) {
                return Some(&self.strategies[i - 1]);
            }
            i = i - 1;
        }
        None
    }

    /// Check if a strategy exists.
    pub fn contains(&self, name: &str) -> (r: bool)
        ensures
            r == (lookup(self@, name@) is Some),
    {
        self.get(name).is_some()
    }

    /// Get all registered strategy names.
    pub fn list_strategies(&self) -> (r: Vec<&str>)
        ensures
            r@.len() == self@.len(),
            forall|i: int| 0 <= i < r@.len() ==> r@[i]@ == #[trigger] self@[i].name_spec(),
    {
        let mut r: Vec<&str> = Vec::new();
        let mut i: usize = 0;
        while i < self.strategies.len()
            invariant
                i <= self@.len(),
                self.strategies@ == self@,
                r@.len() == i,
                forall|j: int| 0 <= j < i ==> r@[j]@ == #[trigger] self@[j].name_spec(),
            decreases self.strategies.len() - i,
        {
            r.push(self.strategies[i].name());
            i = i + 1;
        }
        r
    }

    /// Create a registry from the given strategies, registered in order.
    pub fn from_strategies(strategies: Vec<Strategy>) -> (r: Self)
        ensures
            r.wf(),
            r@ == registered_all(Seq::empty(), strategies@),
    {
        let mut r = StrategyRegistry::empty();
        let mut strategies = strategies;
        let ghost all = strategies@;
        let mut rest: Vec<Strategy> = Vec::new();
        // take from the back, then register in the given order
        while strategies.len() > 0
            invariant
                all == strategies@ + rest@.reverse(),
            decreases strategies.len(),
        {
            let st = strategies.pop().unwrap();
            let ghost before = rest@;
            rest.push(st);
            proof {
                assert(rest@.reverse() =~= seq![st] + before.reverse());
            }
        }
        assert(all =~= rest@.reverse());
        let ghost done: Seq<Strategy> = Seq::empty();
        while rest.len() > 0
            invariant
                r.wf(),
                all == done + rest@.reverse(),
                r@ == registered_all(Seq::empty(), done),
            decreases rest.len(),
        {
            let st = rest.pop().unwrap();
            proof {
                assert(all =~= (done.push(st)) + rest@.reverse());
                assert(done.push(st).drop_last() =~= done);
            }
            r.register_strategy(st);
            proof {
                done = done.push(st);
            }
        }
        assert(done =~= all);
        r
    }

    /// Create a new registry with the default strategies.
    pub fn new() -> (r: Self)
        ensures
            r.wf(),
            names_of(r@) == default_names(),
            forall|i: int| 0 <= i < r@.len() ==> (#[trigger] r@[i]).is_fresh(),
    {
        // One strategy per name: `dx-serve` is the `dx` command line.
        let mut v: Vec<Strategy> = Vec::new();
        v.push(Strategy::CargoTest(CargoTestStrategy::new()));
        v.push(Strategy::CargoNextest(CargoNextestStrategy::new()));
        v.push(Strategy::CargoRun(CargoRunStrategy::new()));
        v.push(Strategy::CargoBench(CargoBenchStrategy::new()));
        v.push(Strategy::CargoDocTest(CargoDocTestStrategy::new()));
        v.push(Strategy::CargoBuild(CargoBuildStrategy::new()));
        v.push(Strategy::BazelTest(BazelTestStrategy::new()));
        v.push(Strategy::BazelRun(BazelRunStrategy::new()));
        v.push(Strategy::BazelBench(BazelBenchStrategy::new()));
        v.push(Strategy::BazelBuild(BazelBuildStrategy::new()));
        v.push(Strategy::LeptosWatch(LeptosWatchStrategy::new()));
        v.push(Strategy::DxServe(DxServeStrategy::new()));
        v.push(Strategy::TrunkServe(TrunkServeStrategy::new()));
        v.push(Strategy::CargoTauri(CargoTauriStrategy::new()));
        v.push(Strategy::CargoLeptos(CargoLeptosStrategy::new()));
        v.push(Strategy::CargoShuttle(CargoShuttleStrategy::new()));
        v.push(Strategy::RustcRun(RustcRunStrategy::new()));
        v.push(Strategy::RustcTest(RustcTestStrategy::new()));
        v.push(Strategy::CargoScriptRun(CargoScriptRunStrategy::new()));
        v.push(Strategy::CargoScriptTest(CargoScriptTestStrategy::new()));
        proof {
            lemma_default_names_distinct();
            assert(names_of(v@) =~= default_names());
            lemma_names_distinct(v@);
        }
        let r = StrategyRegistry { strategies: v };
        r
    }
}

/// Register each strategy in turn.
pub open spec fn registered_all(s: Seq<Strategy>, more: Seq<Strategy>) -> Seq<Strategy>
    decreases more.len(),
{
    if more.len() == 0 {
        s
    } else {
        registered(registered_all(s, more.drop_last()), more.last())
    }
}

/// The default names are distinct.
pub proof fn lemma_default_names_distinct()
    ensures
        default_names().no_duplicates(),
{
    reveal_strlit("cargo-test");
    reveal_strlit("cargo-nextest");
    reveal_strlit("cargo-run");
    reveal_strlit("cargo-bench");
    reveal_strlit("cargo-doctest");
    reveal_strlit("cargo-build");
    reveal_strlit("bazel-test");
    reveal_strlit("bazel-run");
    reveal_strlit("bazel-bench");
    reveal_strlit("bazel-build");
    reveal_strlit("leptos-watch");
    reveal_strlit("dx-serve");
    reveal_strlit("trunk-serve");
    reveal_strlit("cargo-tauri");
    reveal_strlit("cargo-leptos");
    reveal_strlit("cargo-shuttle");
    reveal_strlit("rustc-run");
    reveal_strlit("rustc-test");
    reveal_strlit("cargo-script-run");
    reveal_strlit("cargo-script-test");
    assert("cargo-test"@[0] != "bazel-test"@[0]);
    assert("cargo-test"@[0] != "rustc-test"@[0]);
    assert("cargo-nextest"@[6] != "cargo-doctest"@[6]);
    assert("cargo-nextest"@[6] != "cargo-shuttle"@[6]);
    assert("cargo-run"@[0] != "bazel-run"@[0]);
    assert("cargo-run"@[0] != "rustc-run"@[0]);
    assert("cargo-bench"@[7] != "cargo-build"@[7]);
    assert("cargo-bench"@[0] != "bazel-bench"@[0]);
    assert("cargo-bench"@[0] != "bazel-build"@[0]);
    assert("cargo-bench"@[0] != "trunk-serve"@[0]);
    assert("cargo-bench"@[6] != "cargo-tauri"@[6]);
    assert("cargo-doctest"@[6] != "cargo-shuttle"@[6]);
    assert("cargo-build"@[0] != "bazel-bench"@[0]);
    assert("cargo-build"@[0] != "bazel-build"@[0]);
    assert("cargo-build"@[0] != "trunk-serve"@[0]);
    assert("cargo-build"@[6] != "cargo-tauri"@[6]);
    assert("bazel-test"@[0] != "rustc-test"@[0]);
    assert("bazel-run"@[0] != "rustc-run"@[0]);
    assert("bazel-bench"@[7] != "bazel-build"@[7]);
    assert("bazel-bench"@[0] != "trunk-serve"@[0]);
    assert("bazel-bench"@[0] != "cargo-tauri"@[0]);
    assert("bazel-build"@[0] != "trunk-serve"@[0]);
    assert("bazel-build"@[0] != "cargo-tauri"@[0]);
    assert("leptos-watch"@[0] != "cargo-leptos"@[0]);
    assert("trunk-serve"@[0] != "cargo-tauri"@[0]);
    let d = default_names();
    assert forall|i: int, j: int| 0 <= i < d.len() && 0 <= j < d.len() && i != j implies d[i] != d[j] by {
        if d[i] == d[j] {
            assert(d[i].len() == d[j].len());
        }
    }
}

/// The names of the default strategies, in the order they are kept.
pub open spec fn default_names() -> Seq<Seq<char>> {
    seq![
        "cargo-test"@,
        "cargo-nextest"@,
        "cargo-run"@,
        "cargo-bench"@,
        "cargo-doctest"@,
        "cargo-build"@,
        "bazel-test"@,
        "bazel-run"@,
        "bazel-bench"@,
        "bazel-build"@,
        "leptos-watch"@,
        "dx-serve"@,
        "trunk-serve"@,
        "cargo-tauri"@,
        "cargo-leptos"@,
        "cargo-shuttle"@,
        "rustc-run"@,
        "rustc-test"@,
        "cargo-script-run"@,
        "cargo-script-test"@,
    ]
}

/// The strategies `with_cargo_defaults` adds, in order.
pub open spec fn cargo_defaults(added: Seq<Strategy>) -> bool {
    &&& names_of(added) == seq!["cargo-test"@, "cargo-nextest"@, "cargo-run"@, "cargo-bench"@, "cargo-doctest"@]
    &&& forall|i: int| 0 <= i < added.len() ==> (#[trigger] added[i]).is_fresh()
}

/// Builder for creating custom strategy registries.
#[derive(Debug)]
pub struct StrategyRegistryBuilder {
    registry: StrategyRegistry,
}

impl View for StrategyRegistryBuilder {
    type V = Seq<Strategy>;

    closed spec fn view(&self) -> Seq<Strategy> {
        self.registry@
    }
}

impl StrategyRegistryBuilder {
    /// Well formed: names are distinct.
    pub closed spec fn wf(&self) -> bool {
        self.registry.wf()
    }

    /// Create a new builder.
    pub fn new() -> (r: Self)
        ensures
            r.wf(),
            r@ == Seq::<Strategy>::empty(),
    {
        StrategyRegistryBuilder { registry: StrategyRegistry::empty() }
    }

    /// Add a strategy to the builder.
    pub fn with_strategy(self, strategy: Strategy) -> (r: Self)
        requires
            self.wf(),
        ensures
            r.wf(),
            r@ == registered(self@, strategy),
    {
        let mut b = self;
        b.registry.register_strategy(strategy);
        b
    }

    /// Add the default Cargo strategies.
    pub fn with_cargo_defaults(self) -> (r: Self)
        requires
            self.wf(),
        ensures
            r.wf(),
            exists|added: Seq<Strategy>| cargo_defaults(added) && r@ == registered_all(self@, added),
    {
        let ghost start = self@;
        let a = Strategy::CargoTest(CargoTestStrategy::new());
        let b = Strategy::CargoNextest(CargoNextestStrategy::new());
        let c = Strategy::CargoRun(CargoRunStrategy::new());
        let d = Strategy::CargoBench(CargoBenchStrategy::new());
        let e = Strategy::CargoDocTest(CargoDocTestStrategy::new());
        let ghost added = seq![a, b, c, d, e];
        let r = self.with_strategy(a).with_strategy(b).with_strategy(c).with_strategy(d).with_strategy(e);
        proof {
            assert(names_of(added) =~= seq!["cargo-test"@, "cargo-nextest"@, "cargo-run"@, "cargo-bench"@, "cargo-doctest"@]);
            assert(seq![a].drop_last() =~= Seq::<Strategy>::empty());
            assert(registered_all(start, Seq::<Strategy>::empty()) == start);
            assert(seq![a].last() == a);
            assert(seq![a, b].drop_last() =~= seq![a]);
            assert(seq![a, b, c].drop_last() =~= seq![a, b]);
            assert(seq![a, b, c, d].drop_last() =~= seq![a, b, c]);
            assert(added.drop_last() =~= seq![a, b, c, d]);
            assert(registered_all(start, seq![a]) == registered(start, a));
            assert(registered_all(start, seq![a, b]) == registered(registered(start, a), b));
            assert(registered_all(start, seq![a, b, c]) == registered(registered(registered(start, a), b), c));
            assert(registered_all(start, seq![a, b, c, d]) == registered(registered(registered(registered(start, a), b), c), d));
            assert(r@ == registered_all(start, added));
            assert(cargo_defaults(added));
        }
        r
    }

    /// Build the registry.
    pub fn build(self) -> (r: StrategyRegistry)
        requires
            self.wf(),
        ensures
            r.wf(),
            r@ == self@,
    {
        self.registry
    }
}

} // verus!
