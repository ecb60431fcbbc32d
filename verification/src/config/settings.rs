//! The runner's settings file: global settings and per-function overrides.
use vstd::prelude::*;
use crate::config::override_config::Override;
use crate::config::test_framework::TestFramework;
use crate::types::FunctionIdentity;

verus! {

/// The runner's settings.
#[derive(Debug)]
pub struct Config {
    pub command: Option<String>,
    pub subcommand: Option<String>,
    pub channel: Option<String>,
    pub extra_args: Option<Vec<String>>,
    pub env: Option<Vec<(String, String)>>,
    pub extra_test_binary_args: Option<Vec<String>>,
    pub test_frameworks: Option<TestFramework>,
    pub binary_framework: Option<TestFramework>,
    pub linked_projects: Option<Vec<String>>,
    pub package: Option<String>,
    pub overrides: Vec<Override>,
    pub cache_enabled: bool,
    pub cache_dir: Option<String>,
}

impl Default for Config {
    fn default() -> (r: Self)
        ensures
            r.command is None && r.subcommand is None && r.channel is None,
            r.extra_args is None && r.env is None && r.extra_test_binary_args is None,
            r.test_frameworks is None && r.binary_framework is None,
            r.linked_projects is None && r.package is None,
            r.overrides@.len() == 0,
            !r.cache_enabled && r.cache_dir is None,
    {
        Config {
            command: None,
            subcommand: None,
            channel: None,
            extra_args: None,
            env: None,
            extra_test_binary_args: None,
            test_frameworks: None,
            binary_framework: None,
            linked_projects: None,
            package: None,
            overrides: Vec::new(),
            cache_enabled: false,
            cache_dir: None,
        }
    }
}

/// `i` is the first override whose identity pattern matches `identity`.
pub open spec fn first_match(overrides: Seq<Override>, identity: FunctionIdentity, i: int) -> bool {
    &&& 0 <= i < overrides.len()
    &&& overrides[i].identity.matches_spec(identity)
    &&& forall|j: int| 0 <= j < i ==> !(#[trigger] overrides[j]).identity.matches_spec(identity)
}

/// The pattern `pattern` matches the identity `id`.
pub open spec fn matches_view(pattern: FunctionIdentity, id: crate::types::IdentityView) -> bool {
    &&& crate::types::field_matches(crate::types::opt_view(pattern.package), id.package)
    &&& crate::types::field_matches(crate::types::opt_view(pattern.mod_path), id.mod_path)
    &&& crate::types::field_matches(crate::types::opt_view(pattern.file_path), id.file_path)
    &&& crate::types::field_matches(crate::types::opt_view(pattern.function_name), id.function_name)
}

/// The first override whose pattern matches the identity.
pub open spec fn first_override(overrides: Seq<Override>, id: crate::types::IdentityView) -> Option<Override> {
    if exists|i: int| 0 <= i < overrides.len() && matches_view(#[trigger] overrides[i].identity, id) {
        let i = choose|i: int|
            0 <= i < overrides.len() && matches_view(overrides[i].identity, id) && forall|j: int|
                0 <= j < i ==> !matches_view(#[trigger] overrides[j].identity, id);
        Some(overrides[i])
    } else {
        None
    }
}

/// The first match is what `first_override` picks.
pub proof fn lemma_first_override(overrides: Seq<Override>, identity: FunctionIdentity, i: int)
    requires
        first_match(overrides, identity, i),
    ensures
        first_override(overrides, identity@) == Some(overrides[i]),
{
    let k = choose|k: int|
        0 <= k < overrides.len() && matches_view(overrides[k].identity, identity@) && forall|j: int|
            0 <= j < k ==> !matches_view(#[trigger] overrides[j].identity, identity@);
    assert(matches_view(overrides[i].identity, identity@));
    if k < i {
        assert(!overrides[k].identity.matches_spec(identity));
    } else if k > i {
        assert(!matches_view(overrides[i].identity, identity@));
    }
}

impl Config {
    /// The first override whose identity pattern matches the identity.
    pub fn get_override_for(&self, identity: &FunctionIdentity) -> (r: Option<&Override>)
        ensures
            match r {
                Some(o) => exists|i: int| first_match(self.overrides@, *identity, i) && self.overrides@[i] == *o,
                None => forall|j: int| 0 <= j < self.overrides@.len()
                    ==> !(#[trigger] self.overrides@[j]).identity.matches_spec(*identity),
            },
    {
        let mut i: usize = 0;
        while i < self.overrides.len()
            invariant
                i <= self.overrides@.len(),
                forall|j: int| 0 <= j < i ==> !(#[trigger] self.overrides@[j]).identity.matches_spec(*identity),
            decreases self.overrides.len() - i,
        {
            if self.overrides[i].identity.matches(identity) {
                assert(first_match(self.overrides@, *identity, i as int));
                return Some(&self.overrides[i]);
            }
            i = i + 1;
        }
        None
    }

    /// The override `first_override` picks for the identity.
    pub fn find_override(&self, identity: &FunctionIdentity) -> (r: Option<&Override>)
        ensures
            match r {
                Some(o) => first_override(self.overrides@, identity@) == Some(*o),
                None => first_override(self.overrides@, identity@) is None,
            },
    {
        let found = self.get_override_for(identity);
        proof {
            match found {
                Some(o) => {
                    let i = choose|i: int| first_match(self.overrides@, *identity, i) && self.overrides@[i] == *o;
                    lemma_first_override(self.overrides@, *identity, i);
                },
                None => {
                    assert(!(exists|i: int| 0 <= i < self.overrides@.len() && matches_view(#[trigger] self.overrides@[i].identity, identity@)));
                },
            }
        }
        found
    }
}

} // verus!
