//! Which configuration files apply to a path: the one at the project root,
//! then those found walking up from the path, merged from the least to the
//! most specific. Reading the files is left to the caller; this module
//! decides where the walk stops and what the merged configuration is.
use vstd::prelude::*;
use crate::build_system::PathFacts;
use crate::config::v2::{Config, ConfigView};
use crate::paths::{components, path_components};
use crate::strings::str_eq;

verus! {

/// Two paths with the same components.
pub open spec fn same_path(a: Seq<char>, b: Seq<char>) -> bool {
    components(a) == components(b)
}

/// `b` merged into `a`, as `Config::merge` does.
pub open spec fn merge_view(a: ConfigView, b: ConfigView) -> ConfigView {
    ConfigView {
        layers: a.layers + b.layers,
        registry: a.registry,
        linked_projects: if a.linked_projects is None {
            b.linked_projects
        } else {
            a.linked_projects
        },
    }
}

/// Configurations merged in order, the first as the base.
pub open spec fn merged_all(cs: Seq<ConfigView>) -> ConfigView
    decreases cs.len(),
{
    if cs.len() <= 1 {
        cs[0]
    } else {
        merge_view(merged_all(cs.drop_last()), cs.last())
    }
}

/// The configurations as values.
pub open spec fn views(cs: Seq<Config>) -> Seq<ConfigView> {
    cs.map_values(|c: Config| c@)
}

/// What the walk does next: look at the parent directory, or stop.
#[derive(Debug, Clone, Copy, PartialEq, Eq, Structural)]
pub enum WalkStep {
    Parent,
    Stop,
}

/// The walk stops at the project root (when one is set), else at the home
/// directory, and at the directory whose configuration names the linked
/// projects.
pub open spec fn walk_step(dir: Seq<char>, linked_at: Option<Seq<char>>, project_root: Option<Seq<char>>, home: Option<Seq<char>>) -> WalkStep {
    if project_root is Some && same_path(dir, project_root->0) {
        WalkStep::Stop
    } else if project_root is None && home is Some && same_path(dir, home->0) {
        WalkStep::Stop
    } else if linked_at is Some && same_path(linked_at->0, dir) {
        WalkStep::Stop
    } else {
        WalkStep::Parent
    }
}

/// The walk so far: the configurations found, from the least specific, and
/// where the linked projects were first named.
pub struct ConfigWalk {
    pub configs: Vec<Config>,
    pub linked_at: Option<String>,
    pub project_root: Option<String>,
    pub home_dir: Option<String>,
}

fn same_path_exec(a: &str, b: &str) -> (r: bool)
    ensures
        r == same_path(a@, b@),
{
    let ca = path_components(a);
    let cb = path_components(b);
    if ca.len() != cb.len() {
        assert(ca.deep_view().len() != cb.deep_view().len());
        return false;
    }
    let mut i: usize = 0;
    while i < ca.len()
        invariant
            i <= ca@.len(),
            ca@.len() == cb@.len(),
            ca.deep_view() == components(a@),
            cb.deep_view() == components(b@),
            forall|j: int| 0 <= j < i ==> ca.deep_view()[j] == cb.deep_view()[j],
        decreases ca.len() - i,
    {
        if !str_eq(ca[i].as_str(), cb[i].as_str()) {
            assert(ca.deep_view()[i as int] != cb.deep_view()[i as int]);
            return false;
        }
        i = i + 1;
    }
    assert(ca.deep_view() =~= cb.deep_view());
    true
}

impl ConfigWalk {
    /// A walk bounded by the project root and the home directory, starting
    /// from the project root's configuration when there is one; the linked
    /// projects of that configuration count as named at the project root.
    pub fn new(project_root: Option<String>, home_dir: Option<String>, root_config: Option<Config>) -> (r: Self)
        ensures
            views(r.configs@) == match root_config {
                Some(c) => seq![c@],
                None => Seq::empty(),
            },
            r.linked_at == match root_config {
                Some(c) => if c@.linked_projects is Some {
                    project_root
                } else {
                    None
                },
                None => None,
            },
            r.project_root == project_root,
            r.home_dir == home_dir,
    {
        let mut configs: Vec<Config> = Vec::new();
        let mut linked_at: Option<String> = None;
        match root_config {
            Some(c) => {
                if c.has_linked_projects() {
                    linked_at = match &project_root {
                        Some(p) => Some(p.clone()),
                        None => None,
                    };
                }
                configs.push(c);
                assert(views(configs@) =~= seq![c@]);
            },
            None => {
                assert(views(configs@) =~= Seq::<ConfigView>::empty());
            },
        }
        ConfigWalk { configs, linked_at, project_root, home_dir }
    }

    /// Records what was found in directory `dir` (the configuration there,
    /// if any) and says where the walk goes next.
    pub fn visit(&mut self, dir: &str, found: Option<Config>) -> (r: WalkStep)
        ensures
            views(final(self).configs@) == match found {
                Some(c) => views(old(self).configs@).push(c@),
                None => views(old(self).configs@),
            },
            crate::types::opt_view(final(self).linked_at) == match found {
                Some(c) => if c@.linked_projects is Some && old(self).linked_at is None {
                    Some(dir@)
                } else {
                    crate::types::opt_view(old(self).linked_at)
                },
                None => crate::types::opt_view(old(self).linked_at),
            },
            final(self).project_root == old(self).project_root,
            final(self).home_dir == old(self).home_dir,
            r == walk_step(dir@, crate::types::opt_view(final(self).linked_at), crate::types::opt_view(old(self).project_root), crate::types::opt_view(old(self).home_dir)),
    {
        match found {
            Some(c) => {
                if c.has_linked_projects() && self.linked_at.is_none() {
                    self.linked_at = Some(String::from_str(dir));
                }
                let ghost before = views(self.configs@);
                self.configs.push(c);
                assert(views(self.configs@) =~= before.push(c@));
            },
            None => {},
        }
        let at_root = match &self.project_root {
            Some(root) => same_path_exec(dir, root.as_str()),
            None => false,
        };
        if at_root {
            return WalkStep::Stop;
        }
        let at_home = match (&self.project_root, &self.home_dir) {
            (None, Some(home)) => same_path_exec(dir, home.as_str()),
            _ => false,
        };
        if at_home {
            return WalkStep::Stop;
        }
        let at_linked = match &self.linked_at {
            Some(l) => same_path_exec(l.as_str(), dir),
            None => false,
        };
        if at_linked {
            WalkStep::Stop
        } else {
            WalkStep::Parent
        }
    }

    /// The configurations found, merged from the least to the most
    /// specific; with none, the defaults for the build system detected at the path.
    pub fn finish(self, facts: &PathFacts) -> (r: Config)
        ensures
            self.configs@.len() > 0 ==> r@ == merged_all(views(self.configs@)),
            self.configs@.len() == 0 ==> {
                &&& r@.layers.len() == 1
                &&& crate::config::v2::defaults_for(
                    r@.layers[0],
                    crate::build_system::detect_spec(*facts).unwrap_or(crate::build_system::BuildSystem::Cargo),
                )
                &&& crate::config::v2::default_registry(r@.registry)
                &&& r@.linked_projects is None
            },
    {
        let mut configs = self.configs;
        if configs.len() == 0 {
            return Config::default_with_detected_build_system(facts);
        }
        let ghost all = views(configs@);
        let ghost first_cfgs = configs@;
        let mut merged = configs.remove(0);
        proof {
            assert(merged == first_cfgs[0]);
            assert(configs@ =~= first_cfgs.subrange(1, first_cfgs.len() as int));
            assert forall|j: int| 0 <= j < configs@.len() implies views(configs@)[j] == all.subrange(1, all.len() as int)[j] by {
                assert(configs@[j] == first_cfgs[j + 1]);
            }
        }
        assert(views(configs@) =~= all.subrange(1, all.len() as int));
        let ghost mut k: int = 1;
        assert(all.subrange(0, 1).len() == 1);
        assert(merged@ == merged_all(all.subrange(0, 1)));
        while configs.len() > 0
            invariant
                1 <= k <= all.len(),
                configs@.len() == all.len() - k,
                views(configs@) == all.subrange(k, all.len() as int),
                merged@ == merged_all(all.subrange(0, k)),
            decreases configs.len(),
        {
            let ghost before = merged@;
            let ghost old_cfgs = configs@;
            let c = configs.remove(0);
            proof {
                assert(c == old_cfgs[0]);
                assert(views(old_cfgs)[0] == c@);
                assert(views(old_cfgs)[0] == all.subrange(k, all.len() as int)[0]);
                assert(c@ == all[k]);
                assert(configs@ =~= old_cfgs.subrange(1, old_cfgs.len() as int));
                assert(all.subrange(0, k + 1).drop_last() =~= all.subrange(0, k));
                assert(all.subrange(0, k + 1).last() == all[k]);
            }
            merged.merge(c);
            proof {
                assert forall|j: int| 0 <= j < configs@.len() implies views(configs@)[j] == all.subrange(k + 1, all.len() as int)[j] by {
                    assert(configs@[j] == old_cfgs[j + 1]);
                    assert(views(old_cfgs)[j + 1] == all.subrange(k, all.len() as int)[j + 1]);
                }
                assert(views(configs@) =~= all.subrange(k + 1, all.len() as int));
                k = k + 1;
            }
        }
        assert(all.subrange(0, all.len() as int) =~= all);
        merged
    }
}

} // verus!
