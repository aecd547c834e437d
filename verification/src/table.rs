//! Keyed tables held as lists of pairs whose keys are distinct, viewed as maps.

use vstd::prelude::*;

verus! {

/// The map that a list of key/value pairs describes.
pub open spec fn key_map<K, V>(entries: Seq<(K, V)>) -> Map<K, V> {
    Map::new(
        |k: K| exists|i: int| 0 <= i < entries.len() && entries[i].0 == k,
        |k: K| entries[choose|i: int| 0 <= i < entries.len() && entries[i].0 == k].1,
    )
}

/// No key occurs twice.
pub open spec fn distinct_keys<K, V>(entries: Seq<(K, V)>) -> bool {
    forall|i: int, j: int|
        0 <= i < entries.len() && 0 <= j < entries.len() && i != j ==> entries[i].0
            != entries[j].0
}

/// The pair at a position is what the map holds under its key.
pub(crate) proof fn lemma_key_lookup<K, V>(entries: Seq<(K, V)>, i: int)
    requires
        distinct_keys(entries),
        0 <= i < entries.len(),
    ensures
        key_map(entries).contains_key(entries[i].0),
        key_map(entries)[entries[i].0] == entries[i].1,
{
    let k = entries[i].0;
    assert(exists|j: int| 0 <= j < entries.len() && entries[j].0 == k);
    let j = choose|j: int| 0 <= j < entries.len() && entries[j].0 == k;
    assert(j == i);
}

/// Adding a pair under a new key inserts it into the map, and keeps the
/// keys distinct.
pub(crate) proof fn lemma_key_push<K, V>(entries: Seq<(K, V)>, k: K, v: V)
    requires
        distinct_keys(entries),
        !key_map(entries).contains_key(k),
    ensures
        distinct_keys(entries.push((k, v))),
        key_map(entries.push((k, v))) == key_map(entries).insert(k, v),
{
    let after = entries.push((k, v));
    assert forall|j: int| 0 <= j < entries.len() implies entries[j].0 != k by {
        if entries[j].0 == k {
            assert(key_map(entries).contains_key(k));
        }
    };
    assert(distinct_keys(after));
    assert forall|x: K|
        #![trigger key_map(after).contains_key(x)]
        key_map(after).contains_key(x) == key_map(entries).insert(k, v).contains_key(x) by {
        if key_map(entries).contains_key(x) {
            let j = choose|j: int| 0 <= j < entries.len() && entries[j].0 == x;
            assert(after[j].0 == x);
        }
        if x == k {
            assert(after[entries.len() as int].0 == x);
        }
        if key_map(after).contains_key(x) && x != k {
            let j = choose|j: int| 0 <= j < after.len() && after[j].0 == x;
            assert(entries[j].0 == x);
        }
    };
    assert forall|x: K| #[trigger]
        key_map(after).contains_key(x) implies key_map(after)[x] == key_map(entries).insert(
        k,
        v,
    )[x] by {
        let j = choose|j: int| 0 <= j < after.len() && after[j].0 == x;
        lemma_key_lookup(after, j);
        if j < entries.len() {
            assert(entries[j] == after[j]);
            lemma_key_lookup(entries, j);
        }
    };
    assert(key_map(after) =~= key_map(entries).insert(k, v));
}

/// Replacing the pair at a position by one with the same key replaces the
/// map's value under that key.
pub(crate) proof fn lemma_key_update<K, V>(entries: Seq<(K, V)>, i: int, v: V)
    requires
        distinct_keys(entries),
        0 <= i < entries.len(),
    ensures
        distinct_keys(entries.update(i, (entries[i].0, v))),
        key_map(entries.update(i, (entries[i].0, v))) == key_map(entries).insert(entries[i].0, v),
{
    let k = entries[i].0;
    let after = entries.update(i, (k, v));
    assert(distinct_keys(after));
    assert forall|x: K|
        #![trigger key_map(after).contains_key(x)]
        key_map(after).contains_key(x) == key_map(entries).insert(k, v).contains_key(x) by {
        if key_map(entries).contains_key(x) {
            let j = choose|j: int| 0 <= j < entries.len() && entries[j].0 == x;
            assert(after[j].0 == x);
        }
        if x == k {
            assert(after[i].0 == x);
        }
        if key_map(after).contains_key(x) {
            let j = choose|j: int| 0 <= j < after.len() && after[j].0 == x;
            if j != i {
                assert(entries[j].0 == x);
            }
        }
    };
    assert forall|x: K| #[trigger]
        key_map(after).contains_key(x) implies key_map(after)[x] == key_map(entries).insert(
        k,
        v,
    )[x] by {
        let j = choose|j: int| 0 <= j < after.len() && after[j].0 == x;
        lemma_key_lookup(after, j);
        if j != i {
            assert(entries[j] == after[j]);
            lemma_key_lookup(entries, j);
        }
    };
    assert(key_map(after) =~= key_map(entries).insert(k, v));
}


} // verus!
