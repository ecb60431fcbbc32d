//! The runner's command configurations: for each context, a default name
//! and the named configurations. Contexts are kept as a list of entries in
//! the order they were added, one entry per context key.
use vstd::prelude::*;
use crate::command::CommandType;
use crate::entities::config::{Config, ConfigView, merge_config_view};
use crate::entities::context::{Context, context_key};
use crate::error::Error;
use crate::strings::{str_eq, concat3};
use crate::types::{opt_view, clone_opt};

verus! {

/// The default name of a context and its configurations.
pub type ConfigVal = (Option<String>, Option<Vec<Config>>);

/// The configurations of every context, keyed by the context's name.
#[derive(Debug)]
pub struct CargoRunner(pub Vec<(String, ConfigVal)>);

/// An entry as values: the context key, its default and its configurations.
pub type EntryView = (Seq<char>, (Option<Seq<char>>, Option<Seq<ConfigView>>));

/// The configurations as values.
pub open spec fn configs_view(cs: Seq<Config>) -> Seq<ConfigView> {
    cs.map_values(|c: Config| c@)
}

/// An optional list of configurations as values.
pub open spec fn opt_configs_view(o: Option<Vec<Config>>) -> Option<Seq<ConfigView>> {
    match o {
        Some(v) => Some(configs_view(v@)),
        None => None,
    }
}

/// An entry as values.
pub open spec fn entry_view(e: (String, ConfigVal)) -> EntryView {
    (e.0@, (opt_view(e.1.0), opt_configs_view(e.1.1)))
}

impl View for CargoRunner {
    type V = Seq<EntryView>;

    open spec fn view(&self) -> Seq<EntryView> {
        self.0@.map_values(|e: (String, ConfigVal)| entry_view(e))
    }
}

/// No context key occurs twice.
pub open spec fn keys_unique(e: Seq<EntryView>) -> bool {
    forall|i: int, j: int| 0 <= i < j < e.len() ==> e[i].0 != e[j].0
}

/// The first position at or after `i` of the entry for key `k`, or -1.
pub open spec fn key_from(e: Seq<EntryView>, k: Seq<char>, i: int) -> int
    decreases e.len() - i,
{
    if i >= e.len() {
        -1
    } else if e[i].0 == k {
        i
    } else {
        key_from(e, k, i + 1)
    }
}

/// The position of the entry for key `k`, or -1.
pub open spec fn key_pos(e: Seq<EntryView>, k: Seq<char>) -> int {
    key_from(e, k, 0)
}

/// The first position at or after `i` of a configuration named `n`, or -1.
pub open spec fn name_from(cs: Seq<ConfigView>, n: Seq<char>, i: int) -> int
    decreases cs.len() - i,
{
    if i >= cs.len() {
        -1
    } else if cs[i].name == n {
        i
    } else {
        name_from(cs, n, i + 1)
    }
}

/// The position of the configuration named `n`, or -1.
pub open spec fn name_pos(cs: Seq<ConfigView>, n: Seq<char>) -> int {
    name_from(cs, n, 0)
}

proof fn lemma_key_from(e: Seq<EntryView>, k: Seq<char>, i: int)
    requires
        0 <= i,
    ensures
        key_from(e, k, i) == -1 || (i <= key_from(e, k, i) < e.len() && e[key_from(e, k, i)].0 == k),
        key_from(e, k, i) == -1 ==> forall|j: int| i <= j < e.len() ==> e[j].0 != k,
        key_from(e, k, i) >= 0 ==> forall|j: int| i <= j < key_from(e, k, i) ==> e[j].0 != k,
    decreases e.len() - i,
{
    if i < e.len() && e[i].0 != k {
        lemma_key_from(e, k, i + 1);
    }
}

proof fn lemma_name_from(cs: Seq<ConfigView>, n: Seq<char>, i: int)
    requires
        0 <= i,
    ensures
        name_from(cs, n, i) == -1 || (i <= name_from(cs, n, i) < cs.len() && cs[name_from(cs, n, i)].name == n),
        name_from(cs, n, i) == -1 ==> forall|j: int| i <= j < cs.len() ==> cs[j].name != n,
    decreases cs.len() - i,
{
    if i < cs.len() && cs[i].name != n {
        lemma_name_from(cs, n, i + 1);
    }
}

/// The configurations named `n`, in order.
pub open spec fn named(cs: Seq<ConfigView>, n: Seq<char>) -> Seq<ConfigView>
    decreases cs.len(),
{
    if cs.len() == 0 {
        Seq::empty()
    } else {
        named(cs.drop_last(), n) + if cs.last().name == n {
            seq![cs.last()]
        } else {
            Seq::empty()
        }
    }
}

/// The configurations not named `n`, in order.
pub open spec fn unnamed(cs: Seq<ConfigView>, n: Seq<char>) -> Seq<ConfigView>
    decreases cs.len(),
{
    if cs.len() == 0 {
        Seq::empty()
    } else {
        unnamed(cs.drop_last(), n) + if cs.last().name != n {
            seq![cs.last()]
        } else {
            Seq::empty()
        }
    }
}

/// What an entry contributes to the configurations named `n` gathered from
/// every context: those configurations, with `n` as the default.
pub open spec fn picked(x: EntryView, n: Seq<char>) -> Seq<EntryView> {
    match x.1.1 {
        Some(cs) => if named(cs, n).len() > 0 {
            seq![(x.0, (Some(n), Some(named(cs, n))))]
        } else {
            Seq::empty()
        },
        None => Seq::empty(),
    }
}

/// The configurations named `n` of every context that has one.
pub open spec fn collected(e: Seq<EntryView>, n: Seq<char>) -> Seq<EntryView>
    decreases e.len(),
{
    if e.len() == 0 {
        Seq::empty()
    } else {
        collected(e.drop_last(), n) + picked(e.last(), n)
    }
}

/// What remains of an entry once the configurations named `n` are taken
/// out: nothing when none remain, and a default of `n` falls back to `default`.
pub open spec fn kept_entry(x: EntryView, n: Seq<char>) -> Seq<EntryView> {
    match x.1.1 {
        None => seq![x],
        Some(cs) => if named(cs, n).len() > 0 {
            if unnamed(cs, n).len() == 0 {
                Seq::empty()
            } else {
                seq![
                    (
                        x.0,
                        (
                            if x.1.0 == Some(n) {
                                Some("default"@)
                            } else {
                                x.1.0
                            },
                            Some(unnamed(cs, n)),
                        ),
                    )
                ]
            }
        } else {
            seq![x]
        },
    }
}

/// The entries once the configurations named `n` are taken out.
pub open spec fn kept(e: Seq<EntryView>, n: Seq<char>) -> Seq<EntryView>
    decreases e.len(),
{
    if e.len() == 0 {
        Seq::empty()
    } else {
        kept(e.drop_last(), n) + kept_entry(e.last(), n)
    }
}

/// Configurations `others` merged into `base` in turn: into the first of the
/// same name, or appended.
pub open spec fn merge_config_list(base: Seq<ConfigView>, others: Seq<ConfigView>) -> Seq<ConfigView>
    decreases others.len(),
{
    if others.len() == 0 {
        base
    } else {
        let b = merge_config_list(base, others.drop_last());
        let c = others.last();
        let p = name_pos(b, c.name);
        if p >= 0 {
            b.update(p, merge_config_view(b[p], c))
        } else {
            b.push(c)
        }
    }
}

/// One entry of another runner merged in: the context is added when
/// missing, its configurations merged, then its default taken, which must
/// name one of the merged configurations; otherwise the default and the
/// context key are reported.
pub open spec fn merge_entry(e: Seq<EntryView>, x: EntryView) -> (Seq<EntryView>, Option<(Seq<char>, Seq<char>)>) {
    let p = key_pos(e, x.0);
    let e1 = if p >= 0 {
        e
    } else {
        e.push((x.0, (None, Some(Seq::empty()))))
    };
    let q = if p >= 0 {
        p
    } else {
        e.len() as int
    };
    let bd = e1[q].1.0;
    let bc = e1[q].1.1;
    let bc2 = match x.1.1 {
        Some(ocs) => Some(merge_config_list(
            match bc {
                Some(b) => b,
                None => Seq::empty(),
            },
            ocs,
        )),
        None => bc,
    };
    let e2 = e1.update(q, (x.0, (bd, bc2)));
    match x.1.0 {
        Some(nd) => if bc2 is Some && name_pos(bc2->0, nd) >= 0 {
            (e2.update(q, (x.0, (Some(nd), bc2))), None)
        } else {
            (e2, Some((nd, x.0)))
        },
        None => (e2, None),
    }
}

/// Entries `others` merged in turn; the first failure stops the merge.
pub open spec fn merged(e: Seq<EntryView>, others: Seq<EntryView>) -> (Seq<EntryView>, Option<(Seq<char>, Seq<char>)>)
    decreases others.len(),
{
    if others.len() == 0 {
        (e, None)
    } else {
        let r = merged(e, others.drop_last());
        if r.1 is Some {
            r
        } else {
            merge_entry(r.0, others.last())
        }
    }
}

/// The configuration a context runs with unless told otherwise: plain
/// cargo with the context's subcommand.
pub open spec fn default_config_view(sub: Seq<char>) -> ConfigView {
    ConfigView {
        name: "default"@,
        command_type: Some(CommandType::Cargo),
        command: Some("cargo"@),
        sub_command: Some(sub),
        allowed_subcommands: Some(Seq::empty()),
        env: Some(Seq::empty()),
    }
}

/// The entry of a context with only the default configuration.
pub open spec fn default_entry(k: Seq<char>) -> EntryView {
    (k, (Some("default"@), Some(seq![default_config_view(k)])))
}

/// The runner's configurations out of the box.
pub open spec fn default_entries() -> Seq<EntryView> {
    seq![default_entry("run"@), default_entry("test"@), default_entry("build"@), default_entry("bench"@)]
}

/// The entries once the default of context `k` is set to `n`, when the
/// context has a configuration named `n`.
pub open spec fn with_default(e: Seq<EntryView>, k: Seq<char>, n: Seq<char>) -> Option<Seq<EntryView>> {
    let p = key_pos(e, k);
    if p >= 0 && e[p].1.1 is Some && name_pos(e[p].1.1->0, n) >= 0 {
        Some(e.update(p, (k, (Some(n), e[p].1.1))))
    } else {
        None
    }
}

/// The default of context `k`.
pub open spec fn default_of(e: Seq<EntryView>, k: Seq<char>) -> Option<Seq<char>> {
    let p = key_pos(e, k);
    if p >= 0 {
        e[p].1.0
    } else {
        None
    }
}

/// The configuration named `n` of context `k`.
pub open spec fn found(e: Seq<EntryView>, k: Seq<char>, n: Seq<char>) -> Option<ConfigView> {
    let p = key_pos(e, k);
    if p >= 0 && e[p].1.1 is Some && name_pos(e[p].1.1->0, n) >= 0 {
        Some(e[p].1.1->0[name_pos(e[p].1.1->0, n)])
    } else {
        None
    }
}

fn text(s: &str) -> (r: String)
    ensures
        r@ == s@,
{
    String::from_str(s)
}

/// A copy of a list of configurations.
fn copy_configs(v: &Vec<Config>) -> (r: Vec<Config>)
    ensures
        configs_view(r@) == configs_view(v@),
{
    let mut r: Vec<Config> = Vec::new();
    let mut i: usize = 0;
    while i < v.len()
        invariant
            i <= v.len(),
            r@.len() == i,
            configs_view(r@) == configs_view(v@).subrange(0, i as int),
        decreases v.len() - i,
    {
        let c = v[i].duplicate();
        let ghost old_r = r@;
        r.push(c);
        proof {
            assert(r@ == old_r.push(c));
            assert forall|j: int| 0 <= j < i + 1 implies configs_view(r@)[j] == configs_view(v@).subrange(0, i + 1)[j] by {
                if j < i {
                    assert(r@[j] == old_r[j]);
                    assert(configs_view(old_r)[j] == configs_view(v@).subrange(0, i as int)[j]);
                }
            }
        }
        assert(configs_view(r@) =~= configs_view(v@).subrange(0, i + 1));
        i = i + 1;
    }
    assert(configs_view(v@).subrange(0, v.len() as int) =~= configs_view(v@));
    r
}

/// A copy of an optional list of configurations.
fn copy_opt_configs(o: &Option<Vec<Config>>) -> (r: Option<Vec<Config>>)
    ensures
        opt_configs_view(r) == opt_configs_view(*o),
{
    match o {
        Some(v) => Some(copy_configs(v)),
        None => None,
    }
}

/// The position of the entry for `k`.
fn find_key(e: &Vec<(String, ConfigVal)>, k: &str) -> (r: Option<usize>)
    ensures
        match r {
            Some(p) => p as int == key_pos(e@.map_values(|x: (String, ConfigVal)| entry_view(x)), k@) && p < e@.len(),
            None => key_pos(e@.map_values(|x: (String, ConfigVal)| entry_view(x)), k@) == -1,
        },
{
    let ghost v = e@.map_values(|x: (String, ConfigVal)| entry_view(x));
    let mut i: usize = 0;
    while i < e.len()
        invariant
            i <= e@.len(),
            v == e@.map_values(|x: (String, ConfigVal)| entry_view(x)),
            key_from(v, k@, i as int) == key_pos(v, k@),
        decreases e.len() - i,
    {
        assert(v[i as int].0 == e@[i as int].0@);
        if str_eq(e[i].0.as_str(), k) {
            return Some(i);
        }
        i = i + 1;
    }
    None
}

/// The position of the configuration named `n`.
fn find_name(cs: &Vec<Config>, n: &str) -> (r: Option<usize>)
    ensures
        match r {
            Some(p) => p as int == name_pos(configs_view(cs@), n@) && p < cs@.len(),
            None => name_pos(configs_view(cs@), n@) == -1,
        },
{
    let ghost v = configs_view(cs@);
    let mut i: usize = 0;
    while i < cs.len()
        invariant
            i <= cs@.len(),
            v == configs_view(cs@),
            name_from(v, n@, i as int) == name_pos(v, n@),
        decreases cs.len() - i,
    {
        if str_eq(cs[i].name.as_str(), n) {
            return Some(i);
        }
        i = i + 1;
    }
    None
}

/// The configurations named `n`, and those not named `n`.
fn split_named(cs: &Vec<Config>, n: &str) -> (r: (Vec<Config>, Vec<Config>))
    ensures
        configs_view(r.0@) == named(configs_view(cs@), n@),
        configs_view(r.1@) == unnamed(configs_view(cs@), n@),
{
    let ghost v = configs_view(cs@);
    let mut yes: Vec<Config> = Vec::new();
    let mut no: Vec<Config> = Vec::new();
    let mut i: usize = 0;
    while i < cs.len()
        invariant
            i <= cs@.len(),
            v == configs_view(cs@),
            configs_view(yes@) == named(v.subrange(0, i as int), n@),
            configs_view(no@) == unnamed(v.subrange(0, i as int), n@),
        decreases cs.len() - i,
    {
        let ghost pre = v.subrange(0, i as int);
        let ghost next = v.subrange(0, i + 1);
        assert(next.drop_last() =~= pre);
        assert(next.last() == cs@[i as int]@);
        let c = cs[i].duplicate();
        if str_eq(cs[i].name.as_str(), n) {
            yes.push(c);
            assert(configs_view(yes@) =~= named(next, n@));
            assert(configs_view(no@) =~= unnamed(next, n@));
        } else {
            no.push(c);
            assert(configs_view(yes@) =~= named(next, n@));
            assert(configs_view(no@) =~= unnamed(next, n@));
        }
        i = i + 1;
    }
    assert(v.subrange(0, cs@.len() as int) =~= v);
    (yes, no)
}

/// The message for a default that names no configuration of its context.
pub open spec fn missing_default_message(nd: Seq<char>, k: Seq<char>) -> Seq<char> {
    "Default command '"@ + nd + "' does not exist in the '"@ + k + "' commands."@
}

/// Once a merge has failed, later entries change nothing.
proof fn lemma_merged_stops(e: Seq<EntryView>, s: Seq<EntryView>, i: int)
    requires
        0 <= i <= s.len(),
        merged(e, s.subrange(0, i)).1 is Some,
    ensures
        merged(e, s) == merged(e, s.subrange(0, i)),
    decreases s.len() - i,
{
    if i < s.len() {
        let t = s.subrange(0, i + 1);
        assert(t.drop_last() =~= s.subrange(0, i));
        lemma_merged_stops(e, s, i + 1);
    } else {
        assert(s.subrange(0, i) =~= s);
    }
}

/// Configurations `others` merged into `base` in turn.
fn merge_config_list_into(base: &mut Vec<Config>, others: &Vec<Config>)
    ensures
        configs_view(final(base)@) == merge_config_list(configs_view(old(base)@), configs_view(others@)),
{
    let ghost start = configs_view(base@);
    let ghost ov = configs_view(others@);
    let mut i: usize = 0;
    while i < others.len()
        invariant
            i <= others@.len(),
            ov == configs_view(others@),
            configs_view(base@) == merge_config_list(start, ov.subrange(0, i as int)),
        decreases others.len() - i,
    {
        let ghost sub = ov.subrange(0, i + 1);
        assert(sub.drop_last() =~= ov.subrange(0, i as int));
        assert(sub.last() == others@[i as int]@);
        let ghost before = configs_view(base@);
        match find_name(base, others[i].name.as_str()) {
            Some(p) => {
                let mut c = base[p].duplicate();
                proof {
                    lemma_name_from(before, others@[i as int]@.name, 0);
                }
                match c.merge(&others[i]) {
                    Ok(()) => {},
                    Err(_) => {},
                }
                let ghost old_b = base@;
                base.set(p, c);
                proof {
                    assert(base@ == old_b.update(p as int, c));
                    assert(configs_view(base@) =~= before.update(p as int, merge_config_view(before[p as int], others@[i as int]@)));
                }
            },
            None => {
                let c = others[i].duplicate();
                let ghost old_b = base@;
                base.push(c);
                proof {
                    assert(base@ == old_b.push(c));
                    assert(configs_view(base@) =~= before.push(others@[i as int]@));
                }
            },
        }
        i = i + 1;
    }
    assert(ov.subrange(0, others@.len() as int) =~= ov);
}

impl CargoRunner {
    fn default_configs(sub_command: &str) -> (r: ConfigVal)
        ensures
            opt_view(r.0) == Some("default"@),
            opt_configs_view(r.1) == Some(seq![default_config_view(sub_command@)]),
    {
        let config = Config {
            name: text("default"),
            command_type: Some(CommandType::Cargo),
            command: Some(text("cargo")),
            sub_command: Some(text(sub_command)),
            allowed_subcommands: Some(Vec::new()),
            env: Some(Vec::new()),
        };
        proof {
            assert(config@.allowed_subcommands->0 =~= Seq::<Seq<char>>::empty());
            assert(config@.env->0 =~= Seq::<(Seq<char>, Seq<char>)>::empty());
        }
        let mut v: Vec<Config> = Vec::new();
        v.push(config);
        assert(configs_view(v@) =~= seq![default_config_view(sub_command@)]);
        (Some(text("default")), Some(v))
    }

    /// The configurations out of the box: `default` (plain cargo with the
    /// context's subcommand) for run, test, build and bench.
    pub fn default() -> (r: CargoRunner)
        ensures
            r@ == default_entries(),
    {
        let mut commands: Vec<(String, ConfigVal)> = Vec::new();
        commands.push((text("run"), CargoRunner::default_configs("run")));
        commands.push((text("test"), CargoRunner::default_configs("test")));
        commands.push((text("build"), CargoRunner::default_configs("build")));
        commands.push((text("bench"), CargoRunner::default_configs("bench")));
        let r = CargoRunner(commands);
        assert(r@ =~= default_entries());
        r
    }

    /// Makes `name` the default of the context, when the context has a
    /// configuration of that name.
    pub fn set_default(&mut self, context: Context, name: &str) -> (r: Result<(), Error>)
        ensures
            match with_default(old(self)@, context_key(context), name@) {
                Some(e) => r is Ok && final(self)@ == e,
                None => r matches Err(Error::SetDefault(k)) && k@ == context_key(context) && final(self)@ == old(self)@,
            },
    {
        let key = context.as_str();
        match find_key(&self.0, key) {
            Some(p) => {
                let found = match &self.0[p].1.1 {
                    Some(configs) => match find_name(configs, name) {
                        Some(_) => Some(copy_configs(configs)),
                        None => None,
                    },
                    None => None,
                };
                match found {
                    Some(configs) => {
                        let ghost old_e = self.0@;
                        let ghost old_v = self@;
                        self.0.set(p, (text(key), (Some(text(name)), Some(configs))));
                        proof {
                            assert(self@ =~= old_v.update(
                                p as int,
                                (context_key(context), (Some(name@), old_v[p as int].1.1)),
                            ));
                        }
                        Ok(())
                    },
                    None => Err(Error::SetDefault(text(key))),
                }
            },
            None => Err(Error::SetDefault(text(key))),
        }
    }

    /// The default of the context.
    pub fn get_default(&self, context: Context) -> (r: Option<&str>)
        ensures
            match r {
                Some(s) => default_of(self@, context_key(context)) == Some(s@),
                None => default_of(self@, context_key(context)) is None,
            },
    {
        match find_key(&self.0, context.as_str()) {
            Some(p) => match &self.0[p].1.0 {
                Some(d) => Some(d.as_str()),
                None => None,
            },
            None => None,
        }
    }

    /// The configurations named `config_name` of every context that has
    /// one, each with that name as its default; `None` when no context has one.
    pub fn collect(&self, config_name: &str) -> (r: Option<CargoRunner>)
        ensures
            match r {
                Some(c) => collected(self@, config_name@).len() > 0 && c@ == collected(self@, config_name@),
                None => collected(self@, config_name@).len() == 0,
            },
    {
        let ghost v = self@;
        let mut out: Vec<(String, ConfigVal)> = Vec::new();
        let mut i: usize = 0;
        while i < self.0.len()
            invariant
                i <= self.0@.len(),
                v == self@,
                out@.map_values(|x: (String, ConfigVal)| entry_view(x)) == collected(v.subrange(0, i as int), config_name@),
            decreases self.0.len() - i,
        {
            let ghost pre = v.subrange(0, i as int);
            let ghost next = v.subrange(0, i + 1);
            assert(next.drop_last() =~= pre);
            assert(next.last() == entry_view(self.0@[i as int]));
            let ghost before = out@.map_values(|x: (String, ConfigVal)| entry_view(x));
            match &self.0[i].1.1 {
                Some(configs) => {
                    let (yes, _no) = split_named(configs, config_name);
                    if yes.len() > 0 {
                        let entry = (self.0[i].0.clone(), (Some(text(config_name)), Some(yes)));
                        out.push(entry);
                        assert(out@.map_values(|x: (String, ConfigVal)| entry_view(x)) =~= before.push(entry_view(entry)));
                    }
                },
                None => {},
            }
            assert(out@.map_values(|x: (String, ConfigVal)| entry_view(x)) =~= collected(next, config_name@));
            i = i + 1;
        }
        assert(v.subrange(0, self.0@.len() as int) =~= v);
        if out.len() == 0 {
            None
        } else {
            let r = CargoRunner(out);
            Some(r)
        }
    }

    /// The configuration named `config_name` of the context.
    pub fn find(&self, context: Context, config_name: &str) -> (r: Option<&Config>)
        ensures
            match r {
                Some(c) => found(self@, context_key(context), config_name@) == Some(c@),
                None => found(self@, context_key(context), config_name@) is None,
            },
    {
        match find_key(&self.0, context.as_str()) {
            Some(p) => match &self.0[p].1.1 {
                Some(configs) => match find_name(configs, config_name) {
                    Some(k) => Some(&configs[k]),
                    None => None,
                },
                None => None,
            },
            None => None,
        }
    }

    /// Takes the configurations named `config_name` out of every context and
    /// returns them, each context with that name as its default. A context
    /// left with no configuration is removed; one whose default was that
    /// name falls back to `default`.
    pub fn pluck(&mut self, config_name: &str) -> (r: CargoRunner)
        ensures
            r@ == collected(old(self)@, config_name@),
            final(self)@ == kept(old(self)@, config_name@),
    {
        let ghost v = self@;
        let mut removed: Vec<(String, ConfigVal)> = Vec::new();
        let mut rest: Vec<(String, ConfigVal)> = Vec::new();
        let mut i: usize = 0;
        while i < self.0.len()
            invariant
                i <= self.0@.len(),
                v == self@,
                removed@.map_values(|x: (String, ConfigVal)| entry_view(x)) == collected(v.subrange(0, i as int), config_name@),
                rest@.map_values(|x: (String, ConfigVal)| entry_view(x)) == kept(v.subrange(0, i as int), config_name@),
            decreases self.0.len() - i,
        {
            let ghost pre = v.subrange(0, i as int);
            let ghost next = v.subrange(0, i + 1);
            let ghost x = entry_view(self.0@[i as int]);
            assert(next.drop_last() =~= pre);
            assert(next.last() == x);
            let ghost rm0 = removed@.map_values(|x: (String, ConfigVal)| entry_view(x));
            let ghost rs0 = rest@.map_values(|x: (String, ConfigVal)| entry_view(x));
            let key = self.0[i].0.clone();
            match &self.0[i].1.1 {
                None => {
                    let d = clone_opt(&self.0[i].1.0);
                    let entry = (key, (d, None));
                    rest.push(entry);
                    assert(entry_view(entry) == x);
                    assert(rest@.map_values(|x: (String, ConfigVal)| entry_view(x)) =~= rs0.push(x));
                },
                Some(configs) => {
                    let (yes, no) = split_named(configs, config_name);
                    if yes.len() > 0 {
                        let entry = (key.clone(), (Some(text(config_name)), Some(yes)));
                        removed.push(entry);
                        assert(removed@.map_values(|x: (String, ConfigVal)| entry_view(x)) =~= rm0.push(entry_view(entry)));
                        if no.len() > 0 {
                            let is_default = match &self.0[i].1.0 {
                                Some(d) => str_eq(d.as_str(), config_name),
                                None => false,
                            };
                            let d = if is_default {
                                Some(text("default"))
                            } else {
                                clone_opt(&self.0[i].1.0)
                            };
                            let kept_one = (key, (d, Some(no)));
                            rest.push(kept_one);
                            assert(rest@.map_values(|x: (String, ConfigVal)| entry_view(x)) =~= rs0.push(entry_view(kept_one)));
                        } else {
                            assert(rest@.map_values(|x: (String, ConfigVal)| entry_view(x)) =~= rs0 + Seq::<EntryView>::empty());
                        }
                    } else {
                        let d = clone_opt(&self.0[i].1.0);
                        let entry = (key, (d, Some(no)));
                        rest.push(entry);
                        proof {
                            let cs = x.1.1->0;
                            lemma_unnamed_all(cs, config_name@);
                        }
                        assert(entry_view(entry) == x);
                        assert(rest@.map_values(|x: (String, ConfigVal)| entry_view(x)) =~= rs0.push(x));
                    }
                },
            }
            assert(removed@.map_values(|x: (String, ConfigVal)| entry_view(x)) =~= collected(next, config_name@));
            assert(rest@.map_values(|x: (String, ConfigVal)| entry_view(x)) =~= kept(next, config_name@));
            i = i + 1;
        }
        assert(v.subrange(0, self.0@.len() as int) =~= v);
        self.0 = rest;
        CargoRunner(removed)
    }
    /// Merges another runner's configurations in, context by context in the
    /// other's order: a missing context is added, configurations of the same
    /// name merge and new ones are appended, and the other's default is
    /// taken when it names one of the merged configurations. A default that
    /// names none stops the merge with an error; what was merged before stays.
    pub fn merge(&mut self, other: CargoRunner) -> (r: Result<(), Error>)
        ensures
            final(self)@ == merged(old(self)@, other@).0,
            match merged(old(self)@, other@).1 {
                None => r is Ok,
                Some((nd, k)) => r matches Err(Error::Other(m)) && m@ == missing_default_message(nd, k),
            },
    {
        let ghost start = self@;
        let ghost ov = other@;
        let mut failure: Option<String> = None;
        let mut i: usize = 0;
        while i < other.0.len() && failure.is_none()
            invariant
                i <= other.0@.len(),
                ov == other@,
                failure is None ==> merged(start, ov.subrange(0, i as int)) == (self@, None::<(Seq<char>, Seq<char>)>),
                failure is Some ==> merged(start, ov.subrange(0, i as int)).0 == self@ && match merged(
                    start,
                    ov.subrange(0, i as int),
                ).1 {
                    Some((nd, k)) => failure->0@ == missing_default_message(nd, k),
                    None => false,
                },
            decreases other.0.len() - i,
        {
            let ghost sub = ov.subrange(0, i + 1);
            assert(sub.drop_last() =~= ov.subrange(0, i as int));
            let ghost x = entry_view(other.0@[i as int]);
            assert(sub.last() == x);
            let ghost e0 = self@;
            let k = other.0[i].0.clone();
            let p = match find_key(&self.0, k.as_str()) {
                Some(p) => p,
                None => {
                    let fresh: Vec<Config> = Vec::new();
                    let ghost old_s = self.0@;
                    self.0.push((k.clone(), (None, Some(fresh))));
                    proof {
                        assert(configs_view(fresh@) =~= Seq::<ConfigView>::empty());
                        assert(self@ =~= e0.push((x.0, (None, Some(Seq::<ConfigView>::empty())))));
                    }
                    self.0.len() - 1
                },
            };
            let ghost e1 = self@;
            proof {
                lemma_key_from(e0, x.0, 0);
            }
            let bd = clone_opt(&self.0[p].1.0);
            let bc = copy_opt_configs(&self.0[p].1.1);
            let bc2 = match &other.0[i].1.1 {
                Some(ocs) => {
                    let mut b = match bc {
                        Some(b) => b,
                        None => {
                            let empty: Vec<Config> = Vec::new();
                            assert(configs_view(empty@) =~= Seq::<ConfigView>::empty());
                            empty
                        },
                    };
                    merge_config_list_into(&mut b, ocs);
                    Some(b)
                },
                None => bc,
            };
            let ghost bc2v = opt_configs_view(bc2);
            match &other.0[i].1.0 {
                Some(nd) => {
                    let ok = match &bc2 {
                        Some(b) => find_name(b, nd.as_str()).is_some(),
                        None => false,
                    };
                    if ok {
                        self.0.set(p, (k, (Some(nd.clone()), bc2)));
                        assert(self@ =~= merge_entry(e0, x).0);
                    } else {
                        let m1 = concat3("Default command '", nd.as_str(), "' does not exist in the '");
                        let msg = concat3(m1.as_str(), k.as_str(), "' commands.");
                        self.0.set(p, (k, (bd, bc2)));
                        assert(self@ =~= merge_entry(e0, x).0);
                        failure = Some(msg);
                    }
                },
                None => {
                    self.0.set(p, (k, (bd, bc2)));
                    assert(self@ =~= merge_entry(e0, x).0);
                },
            }
            i = i + 1;
        }
        proof {
            if failure is Some {
                lemma_merged_stops(start, ov, i as int);
            } else {
                assert(ov.subrange(0, ov.len() as int) =~= ov);
            }
        }
        match failure {
            Some(m) => Err(Error::Other(m)),
            None => Ok(()),
        }
    }
}

/// With no configuration named `n`, all of them are kept.
proof fn lemma_unnamed_all(cs: Seq<ConfigView>, n: Seq<char>)
    requires
        named(cs, n).len() == 0,
    ensures
        unnamed(cs, n) == cs,
    decreases cs.len(),
{
    if cs.len() > 0 {
        lemma_unnamed_all(cs.drop_last(), n);
        assert(cs.drop_last().push(cs.last()) =~= cs);
    }
}

proof fn lemma_key_from_update(e: Seq<EntryView>, k: Seq<char>, p: int, x: EntryView, i: int)
    requires
        0 <= i,
        0 <= p < e.len(),
        e[p].0 == x.0,
    ensures
        key_from(e.update(p, x), k, i) == key_from(e, k, i),
    decreases e.len() - i,
{
    if i < e.len() {
        lemma_key_from_update(e, k, p, x, i + 1);
    }
}

/// Setting the default of a context makes it the context's default.
pub proof fn lemma_set_default_then_get(e: Seq<EntryView>, k: Seq<char>, n: Seq<char>)
    requires
        with_default(e, k, n) is Some,
    ensures
        default_of(with_default(e, k, n)->0, k) == Some(n),
{
    let p = key_pos(e, k);
    lemma_key_from(e, k, 0);
    lemma_key_from_update(e, k, p, (k, (Some(n), e[p].1.1)), 0);
}

proof fn lemma_unnamed_excludes(cs: Seq<ConfigView>, n: Seq<char>)
    ensures
        forall|j: int| 0 <= j < unnamed(cs, n).len() ==> (#[trigger] unnamed(cs, n)[j]).name != n,
    decreases cs.len(),
{
    if cs.len() > 0 {
        lemma_unnamed_excludes(cs.drop_last(), n);
        let u = unnamed(cs.drop_last(), n);
        let tail = if cs.last().name != n {
            seq![cs.last()]
        } else {
            Seq::empty()
        };
        assert forall|j: int| 0 <= j < unnamed(cs, n).len() implies (#[trigger] unnamed(cs, n)[j]).name != n by {
            if j < u.len() {
                assert(unnamed(cs, n)[j] == u[j]);
            } else {
                assert(unnamed(cs, n)[j] == tail[j - u.len()]);
            }
        }
    }
}

proof fn lemma_named_empty_excludes(cs: Seq<ConfigView>, n: Seq<char>)
    requires
        named(cs, n).len() == 0,
    ensures
        forall|j: int| 0 <= j < cs.len() ==> (#[trigger] cs[j]).name != n,
    decreases cs.len(),
{
    if cs.len() > 0 {
        lemma_named_empty_excludes(cs.drop_last(), n);
        assert forall|j: int| 0 <= j < cs.len() implies (#[trigger] cs[j]).name != n by {
            if j < cs.len() - 1 {
                assert(cs[j] == cs.drop_last()[j]);
            }
        }
    }
}

/// The entry has no configuration named `n`.
pub open spec fn lacks_name(x: EntryView, n: Seq<char>) -> bool {
    x.1.1 is Some ==> forall|j: int| 0 <= j < x.1.1->0.len() ==> (#[trigger] x.1.1->0[j]).name != n
}

/// No configuration named `n` is left in an entry of `kept(e, n)`.
proof fn lemma_kept_excludes(e: Seq<EntryView>, n: Seq<char>)
    ensures
        forall|i: int| 0 <= i < kept(e, n).len() ==> lacks_name(#[trigger] kept(e, n)[i], n),
    decreases e.len(),
{
    if e.len() > 0 {
        lemma_kept_excludes(e.drop_last(), n);
        let a = kept(e.drop_last(), n);
        let b = kept_entry(e.last(), n);
        let x = e.last();
        match x.1.1 {
            Some(cs) => {
                lemma_unnamed_excludes(cs, n);
                if named(cs, n).len() == 0 {
                    lemma_named_empty_excludes(cs, n);
                }
            },
            None => {},
        }
        assert(forall|i: int| 0 <= i < b.len() ==> lacks_name(#[trigger] b[i], n));
        assert forall|i: int| 0 <= i < kept(e, n).len() implies lacks_name(#[trigger] kept(e, n)[i], n) by {
            if i < a.len() {
                assert(kept(e, n)[i] == a[i]);
            } else {
                assert(kept(e, n)[i] == b[i - a.len()]);
            }
        }
    }
}

/// Once the configurations named `n` are plucked, no context has one.
pub proof fn lemma_pluck_removes_name(e: Seq<EntryView>, n: Seq<char>, k: Seq<char>)
    ensures
        found(kept(e, n), k, n) is None,
{
    let r = kept(e, n);
    lemma_kept_excludes(e, n);
    lemma_key_from(r, k, 0);
    let p = key_pos(r, k);
    if p >= 0 && r[p].1.1 is Some {
        let cs = r[p].1.1->0;
        lemma_name_from(cs, n, 0);
        assert(lacks_name(r[p], n));
        if name_pos(cs, n) >= 0 {
            assert(cs[name_pos(cs, n)].name != n);
        }
    }
}


/// The configurations hold one named `n`.
pub open spec fn has_config_named(cs: Seq<ConfigView>, n: Seq<char>) -> bool {
    exists|i: int| 0 <= i < cs.len() && (#[trigger] cs[i]).name == n
}

proof fn lemma_name_pos_found(cs: Seq<ConfigView>, n: Seq<char>)
    ensures
        name_pos(cs, n) >= 0 <==> has_config_named(cs, n),
{
    lemma_name_from(cs, n, 0);
    if name_pos(cs, n) >= 0 {
        assert(cs[name_pos(cs, n)].name == n);
    }
}

/// Merging configuration lists keeps every name of the base and adds every
/// name of the others, and no other name.
pub proof fn lemma_merge_list_names(base: Seq<ConfigView>, others: Seq<ConfigView>, n: Seq<char>)
    ensures
        has_config_named(merge_config_list(base, others), n) <==> (has_config_named(base, n) || has_config_named(
            others,
            n,
        )),
    decreases others.len(),
{
    if others.len() > 0 {
        let o = others.drop_last();
        lemma_merge_list_names(base, o, n);
        let b = merge_config_list(base, o);
        let c = others.last();
        let p = name_pos(b, c.name);
        lemma_name_pos_found(b, c.name);
        lemma_name_from(b, c.name, 0);
        let r = merge_config_list(base, others);
        assert(has_config_named(others, n) <==> (has_config_named(o, n) || c.name == n)) by {
            if has_config_named(others, n) {
                let i = choose|i: int| 0 <= i < others.len() && (#[trigger] others[i]).name == n;
                if i < o.len() {
                    assert(o[i] == others[i]);
                }
            }
            if has_config_named(o, n) {
                let i = choose|i: int| 0 <= i < o.len() && (#[trigger] o[i]).name == n;
                assert(others[i] == o[i]);
            }
            if c.name == n {
                assert(others[others.len() - 1] == c);
            }
        }
        if p >= 0 {
            assert(r == b.update(p, merge_config_view(b[p], c)));
            if has_config_named(r, n) {
                let i = choose|i: int| 0 <= i < r.len() && (#[trigger] r[i]).name == n;
                assert(b[i].name == n);
            }
            if has_config_named(b, n) {
                let i = choose|i: int| 0 <= i < b.len() && (#[trigger] b[i]).name == n;
                assert(r[i].name == n);
            }
            if c.name == n {
                assert(b[p].name == n);
            }
        } else {
            assert(r == b.push(c));
            if has_config_named(r, n) {
                let i = choose|i: int| 0 <= i < r.len() && (#[trigger] r[i]).name == n;
                if i < b.len() {
                    assert(b[i] == r[i]);
                }
            }
            if has_config_named(b, n) {
                let i = choose|i: int| 0 <= i < b.len() && (#[trigger] b[i]).name == n;
                assert(r[i] == b[i]);
            }
            if c.name == n {
                assert(r[b.len() as int] == c);
            }
        }
    }
}

proof fn lemma_key_from_push(e: Seq<EntryView>, k: Seq<char>, y: EntryView, i: int)
    requires
        0 <= i <= e.len(),
    ensures
        key_from(e.push(y), k, i) == if key_from(e, k, i) >= 0 {
            key_from(e, k, i)
        } else if y.0 == k {
            e.len() as int
        } else {
            -1
        },
    decreases e.len() - i,
{
    if i < e.len() {
        assert(e.push(y)[i] == e[i]);
        lemma_key_from_push(e, k, y, i + 1);
    } else {
        assert(e.push(y)[i] == y);
        assert(key_from(e.push(y), k, i + 1) == -1);
    }
}

/// A configuration found before an entry is merged in is found after, and
/// the entry's own configurations are found under its context.
proof fn lemma_merge_entry_found(e: Seq<EntryView>, x: EntryView, k: Seq<char>, n: Seq<char>)
    ensures
        found(e, k, n) is Some ==> found(merge_entry(e, x).0, k, n) is Some,
        (k == x.0 && x.1.1 is Some && has_config_named(x.1.1->0, n)) ==> found(merge_entry(e, x).0, k, n) is Some,
{
    let p = key_pos(e, x.0);
    lemma_key_from(e, x.0, 0);
    lemma_key_from(e, k, 0);
    let e1 = if p >= 0 {
        e
    } else {
        e.push((x.0, (None, Some(Seq::empty()))))
    };
    let q = if p >= 0 {
        p
    } else {
        e.len() as int
    };
    if p < 0 {
        lemma_key_from_push(e, k, (x.0, (None, Some(Seq::<ConfigView>::empty()))), 0);
        lemma_key_from_push(e, x.0, (x.0, (None, Some(Seq::<ConfigView>::empty()))), 0);
    }
    assert(0 <= q < e1.len() && e1[q].0 == x.0);
    assert(key_pos(e1, x.0) == q);
    let bd = e1[q].1.0;
    let bc = e1[q].1.1;
    let bc2 = match x.1.1 {
        Some(ocs) => Some(merge_config_list(
            match bc {
                Some(b) => b,
                None => Seq::empty(),
            },
            ocs,
        )),
        None => bc,
    };
    let e2 = e1.update(q, (x.0, (bd, bc2)));
    lemma_key_from_update(e1, k, q, (x.0, (bd, bc2)), 0);
    let fin = merge_entry(e, x).0;
    assert(fin.len() == e1.len());
    assert(fin[q].0 == x.0 && fin[q].1.1 == bc2);
    assert(forall|i: int| 0 <= i < fin.len() && i != q ==> fin[i] == e1[i]);
    assert(fin == e2 || fin == e2.update(q, (x.0, (Some(x.1.0->0), bc2))));
    if fin != e2 {
        lemma_key_from_update(e2, k, q, (x.0, (Some(x.1.0->0), bc2)), 0);
    }
    assert(key_pos(fin, k) == key_pos(e1, k));
    if found(e, k, n) is Some {
        let pk = key_pos(e, k);
        assert(key_pos(e1, k) == pk);
        let cs = e[pk].1.1->0;
        lemma_name_pos_found(cs, n);
        if pk != q {
            assert(fin[pk] == e1[pk]);
            assert(e1[pk] == e[pk]);
        } else {
            assert(bc == Some(cs));
            match x.1.1 {
                Some(ocs) => {
                    lemma_merge_list_names(cs, ocs, n);
                },
                None => {},
            }
        }
        lemma_name_pos_found(fin[pk].1.1->0, n);
    }
    if k == x.0 && x.1.1 is Some && has_config_named(x.1.1->0, n) {
        let base = match bc {
            Some(b) => b,
            None => Seq::<ConfigView>::empty(),
        };
        lemma_merge_list_names(base, x.1.1->0, n);
        lemma_name_pos_found(bc2->0, n);
    }
}

proof fn lemma_merged_failure_stays(e: Seq<EntryView>, others: Seq<EntryView>)
    requires
        others.len() > 0,
        merged(e, others).1 is None,
    ensures
        merged(e, others.drop_last()).1 is None,
{
}

/// Merging another runner keeps every configuration the runner had: a
/// configuration found under a context before the merge is found after it,
/// whether or not the merge succeeds.
pub proof fn lemma_merge_keeps_configs(e: Seq<EntryView>, others: Seq<EntryView>, k: Seq<char>, n: Seq<char>)
    requires
        found(e, k, n) is Some,
    ensures
        found(merged(e, others).0, k, n) is Some,
    decreases others.len(),
{
    if others.len() > 0 {
        lemma_merge_keeps_configs(e, others.drop_last(), k, n);
        let r = merged(e, others.drop_last());
        if r.1 is None {
            lemma_merge_entry_found(r.0, others.last(), k, n);
        }
    }
}

/// A merge that succeeds adds every configuration of the other runner: one
/// named `n` in the other's context `others[j]` is found under that context.
pub proof fn lemma_merge_adds_configs(e: Seq<EntryView>, others: Seq<EntryView>, j: int, n: Seq<char>)
    requires
        0 <= j < others.len(),
        others[j].1.1 is Some,
        has_config_named(others[j].1.1->0, n),
        merged(e, others).1 is None,
    ensures
        found(merged(e, others).0, others[j].0, n) is Some,
    decreases others.len(),
{
    let o = others.drop_last();
    lemma_merged_failure_stays(e, others);
    let r = merged(e, o);
    if j < others.len() - 1 {
        assert(o[j] == others[j]);
        lemma_merge_adds_configs(e, o, j, n);
        lemma_merge_entry_found(r.0, others.last(), others[j].0, n);
    } else {
        lemma_merge_entry_found(r.0, others.last(), others[j].0, n);
    }
}

} // verus!
