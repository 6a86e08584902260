//! The order in which a map keyed by numbers is walked.
use std::collections::BTreeMap;

use vstd::prelude::*;
use vstd::std_specs::btree::increasing_seq;
use vstd::std_specs::cmp::OrdSpec;
use vstd::std_specs::iter::IteratorSpec;

verus! {

/// `entries` lists the entries of `map` by increasing key.
pub open spec fn lists_in_order<V>(entries: Seq<(&u64, &V)>, map: Map<u64, V>) -> bool {
    &&& forall|i: int, j: int| 0 <= i < j < entries.len() ==> *entries[i].0 < *entries[j].0
    &&& forall|i: int|
        0 <= i < entries.len() ==> map.contains_key(*(#[trigger] entries[i]).0)
            && map[*entries[i].0] == *entries[i].1
    &&& forall|k: u64| #[trigger]
        map.contains_key(k) ==> exists|i: int|
            0 <= i < entries.len() && *(#[trigger] entries[i]).0 == k
}

/// What `iter` yields on `map` are the entries of `map` by increasing key.
pub proof fn lemma_iter_lists_in_order<V>(map: &BTreeMap<u64, V>, entries: Seq<(&u64, &V)>)
    requires
        entries == map.iter().remaining(),
        increasing_seq(entries.map_values(|entry: (&u64, &V)| *entry.0)),
    ensures
        lists_in_order(entries, map@),
{
    let keys = entries.map_values(|entry: (&u64, &V)| *entry.0);
    assert forall|i: int, j: int| 0 <= i < j < entries.len() implies *entries[i].0
        < *entries[j].0 by {
        assert(keys[i].cmp_spec(&keys[j]) is Less);
    }
    assert forall|k: u64| #[trigger] map@.contains_key(k) implies exists|i: int|
        0 <= i < entries.len() && *(#[trigger] entries[i]).0 == k by {
        assert(entries.contains((&k, &map@[k])));
    }
}

/// `keys` lists the keys of `map` in increasing order.
pub open spec fn lists_keys<V>(keys: Seq<u64>, map: Map<u64, V>) -> bool {
    &&& forall|i: int, j: int| 0 <= i < j < keys.len() ==> keys[i] < keys[j]
    &&& forall|i: int| 0 <= i < keys.len() ==> map.contains_key(#[trigger] keys[i])
    &&& forall|k: u64| #[trigger] map.contains_key(k) ==> keys.contains(k)
}

/// Returns the keys of `map` in increasing order.
pub fn sorted_keys<V>(map: &BTreeMap<u64, V>) -> (keys: Vec<u64>)
    ensures
        lists_keys(keys@, map@),
{
    let mut keys: Vec<u64> = Vec::new();
    let entries = map.iter();
    let ghost all = entries.remaining();
    proof {
        lemma_iter_lists_in_order(map, all);
    }
    for (key, _value) in it: entries
        invariant
            it.seq() == all,
            keys@.len() == it.index(),
            forall|i: int| 0 <= i < keys@.len() ==> #[trigger] keys@[i] == *all[i].0,
    {
        keys.push(*key);
    }
    assert forall|k: u64| #[trigger] map@.contains_key(k) implies keys@.contains(k) by {
        let i = choose|i: int| 0 <= i < all.len() && *(#[trigger] all[i]).0 == k;
        assert(keys@[i] == k);
    }
    keys
}

/// Removes the entries of `map` whose keys lie below `bound`.
pub fn drop_below<V>(map: &mut BTreeMap<u64, V>, bound: u64)
    ensures
        final(map)@ == old(map)@.restrict(Set::new(|k: u64| bound <= k)),
{
    let ghost before = map@;
    let keys = sorted_keys(map);
    let mut next: usize = 0;
    while next < keys.len() && keys[next] < bound
        invariant
            lists_keys(keys@, before),
            next <= keys@.len(),
            forall|i: int| 0 <= i < next ==> #[trigger] keys@[i] < bound,
            forall|k: u64| #[trigger]
                map@.contains_key(k) ==> before.contains_key(k) && map@[k] == before[k],
            forall|k: u64| bound <= k && #[trigger] before.contains_key(k) ==> map@.contains_key(k),
            forall|i: int| 0 <= i < next ==> !map@.contains_key(#[trigger] keys@[i]),
        decreases keys@.len() - next,
    {
        map.remove(&keys[next]);
        next = next + 1;
    }
    assert forall|k: u64| k < bound implies !#[trigger] map@.contains_key(k) by {
        if map@.contains_key(k) {
            let i = choose|i: int| 0 <= i < keys@.len() && keys@[i] == k;
            assert(keys@.contains(k));
            assert(i < next || keys@[next as int] <= keys@[i]);
        }
    }
    assert(map@ =~= before.restrict(Set::new(|k: u64| bound <= k)));
}

} // verus!
