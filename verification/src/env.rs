//! Environment variables held as an ordered list of key/value pairs, with
//! the insertion rule of a map: setting a key that is present replaces its value.
use vstd::prelude::*;

use crate::strings::str_eq;

verus! {

/// The characters of each key and value.
pub type EnvView = Seq<(Seq<char>, Seq<char>)>;

/// Position of the last entry whose key is `k`, or -1.
pub open spec fn key_position(e: EnvView, k: Seq<char>) -> int
    decreases e.len(),
{
    if e.len() == 0 {
        -1
    } else if e.last().0 == k {
        e.len() - 1
    } else {
        key_position(e.drop_last(), k)
    }
}

/// `e` with `k` set to `v`: the entry for `k` is replaced when present,
/// otherwise the pair is appended.
pub open spec fn env_insert(e: EnvView, k: Seq<char>, v: Seq<char>) -> EnvView {
    if key_position(e, k) >= 0 {
        e.update(key_position(e, k), (k, v))
    } else {
        e.push((k, v))
    }
}

/// `e` with every pair of `other` set in order.
pub open spec fn env_insert_all(e: EnvView, other: EnvView) -> EnvView
    decreases other.len(),
{
    if other.len() == 0 {
        e
    } else {
        env_insert(env_insert_all(e, other.drop_last()), other.last().0, other.last().1)
    }
}

/// The mapping the pairs describe; a later pair for a key wins.
pub open spec fn env_map(e: EnvView) -> Map<Seq<char>, Seq<char>>
    decreases e.len(),
{
    if e.len() == 0 {
        Map::empty()
    } else {
        env_map(e.drop_last()).insert(e.last().0, e.last().1)
    }
}

/// No key occurs twice.
pub open spec fn keys_distinct(e: EnvView) -> bool {
    forall|i: int, j: int| 0 <= i < j < e.len() ==> e[i].0 != e[j].0
}

pub proof fn lemma_key_position(e: EnvView, k: Seq<char>)
    ensures
        -1 <= key_position(e, k) < e.len(),
        key_position(e, k) >= 0 ==> e[key_position(e, k)].0 == k,
        forall|j: int| key_position(e, k) < j < e.len() ==> e[j].0 != k,
    decreases e.len(),
{
    if e.len() > 0 && e.last().0 != k {
        lemma_key_position(e.drop_last(), k);
        assert forall|j: int| key_position(e, k) < j < e.len() implies e[j].0 != k by {
            if j < e.len() - 1 {
                assert(e.drop_last()[j] == e[j]);
            }
        }
    }
}

/// Key `k` maps to something exactly when some pair has key `k`.
pub proof fn lemma_env_map_domain(e: EnvView, k: Seq<char>)
    ensures
        env_map(e).contains_key(k) <==> key_position(e, k) >= 0,
        key_position(e, k) >= 0 ==> env_map(e)[k] == e[key_position(e, k)].1,
    decreases e.len(),
{
    if e.len() > 0 {
        lemma_env_map_domain(e.drop_last(), k);
        if e.last().0 != k {
            lemma_key_position(e.drop_last(), k);
        }
    }
}

/// Setting a key in the list sets it in the mapping.
pub proof fn lemma_env_insert_map(e: EnvView, k: Seq<char>, v: Seq<char>)
    ensures
        env_map(env_insert(e, k, v)) == env_map(e).insert(k, v),
{
    let r = env_insert(e, k, v);
    lemma_key_position(e, k);
    assert forall|key: Seq<char>| #![auto] env_map(r).contains_key(key) <==> env_map(e).insert(k, v).contains_key(key) by {
        lemma_env_map_domain(e, key);
        lemma_env_map_domain(r, key);
        lemma_key_position(e, key);
        lemma_key_position(r, key);
        if key_position(e, k) >= 0 {
            lemma_key_position_update(e, k, v, key);
        } else {
            lemma_key_position_push(e, k, v, key);
        }
    }
    assert forall|key: Seq<char>| #![auto] env_map(r).contains_key(key) implies env_map(r)[key] == env_map(e).insert(k, v)[key] by {
        lemma_env_map_domain(e, key);
        lemma_env_map_domain(r, key);
        lemma_key_position(e, key);
        lemma_key_position(r, key);
        if key_position(e, k) >= 0 {
            lemma_key_position_update(e, k, v, key);
        } else {
            lemma_key_position_push(e, k, v, key);
        }
    }
    assert(env_map(r) =~= env_map(e).insert(k, v));
}

proof fn lemma_key_position_update(e: EnvView, k: Seq<char>, v: Seq<char>, key: Seq<char>)
    requires
        0 <= key_position(e, k) < e.len(),
        e[key_position(e, k)].0 == k,
    ensures
        key_position(e.update(key_position(e, k), (k, v)), key) == key_position(e, key),
    decreases e.len(),
{
    let p = key_position(e, k);
    let u = e.update(p, (k, v));
    if p == e.len() - 1 {
        assert(u.drop_last() =~= e.drop_last());
    } else {
        assert(e.last().0 != k);
        assert(u.last() == e.last());
        assert(key_position(e.drop_last(), k) == p);
        assert(u.drop_last() =~= e.drop_last().update(p, (k, v)));
        lemma_key_position(e.drop_last(), k);
        lemma_key_position_update(e.drop_last(), k, v, key);
    }
}

proof fn lemma_key_position_push(e: EnvView, k: Seq<char>, v: Seq<char>, key: Seq<char>)
    requires
        key_position(e, k) < 0,
    ensures
        key == k ==> key_position(e.push((k, v)), key) == e.len(),
        key != k ==> key_position(e.push((k, v)), key) == key_position(e, key),
{
    assert(e.push((k, v)).drop_last() =~= e);
}

/// Position of the last entry with key `k`.
pub fn find_key(e: &Vec<(String, String)>, k: &str) -> (r: Option<usize>)
    ensures
        match r {
            Some(i) => i as int == key_position(e.deep_view(), k@),
            None => key_position(e.deep_view(), k@) == -1,
        },
{
    let mut i: usize = e.len();
    assert(e.deep_view().subrange(0, i as int) =~= e.deep_view());
    while i > 0
        invariant
            i <= e.len(),
            key_position(e.deep_view().subrange(0, i as int), k@) == key_position(e.deep_view(), k@),
        decreases i,
    {
        let ghost sub = e.deep_view().subrange(0, i as int);
        assert(sub.drop_last() =~= e.deep_view().subrange(0, i - 1));
        assert(sub.last() == e.deep_view()[i - 1]);
        if str_eq(e[i - 1].0.as_str(), k) {
            return Some(i - 1);
        }
        i = i - 1;
    }
    None
}

/// Sets `k` to `v`, replacing the value when `k` is present.
pub fn env_set(e: &mut Vec<(String, String)>, k: String, v: String)
    ensures
        final(e).deep_view() == env_insert(old(e).deep_view(), k@, v@),
{
    let ghost old_dv = e.deep_view();
    proof {
        lemma_key_position(old_dv, k@);
    }
    match find_key(e, k.as_str()) {
        Some(i) => {
            let ghost old_e = e@;
            e.set(i, (k, v));
            proof {
                assert(e@ == old_e.update(i as int, (k, v)));
                assert forall|j: int| 0 <= j < e@.len() implies e.deep_view()[j] == old_dv.update(i as int, (k@, v@))[j] by {
                    if j != i {
                        assert(e@[j] == old_e[j]);
                    }
                }
                assert(e.deep_view() =~= old_dv.update(i as int, (k@, v@)));
            }
        },
        None => {
            let ghost old_e = e@;
            e.push((k, v));
            proof {
                assert(e@ == old_e.push((k, v)));
                assert forall|j: int| 0 <= j < e@.len() implies e.deep_view()[j] == old_dv.push((k@, v@))[j] by {
                    if j < old_e.len() {
                        assert(e@[j] == old_e[j]);
                    }
                }
                assert(e.deep_view() =~= old_dv.push((k@, v@)));
            }
        },
    }
}

} // verus!
