//! Association lists: sequences of key-value pairs in which each key occurs at most
//! once, the model of the small tables the server keeps.

use vstd::prelude::*;

verus! {

/// The value stored for `k`, taken from the last pair with that key.
pub open spec fn entry_of<K, V>(entries: Seq<(K, V)>, k: K) -> Option<V>
    decreases entries.len(),
{
    if entries.len() == 0 {
        None
    } else if entries.last().0 == k {
        Some(entries.last().1)
    } else {
        entry_of(entries.drop_last(), k)
    }
}

/// Whether every key occurs in at most one pair.
pub open spec fn keys_unique<K, V>(entries: Seq<(K, V)>) -> bool {
    forall|i: int, j: int| 0 <= i < j < entries.len() ==> entries[i].0 != entries[j].0
}

pub proof fn lemma_entry_none<K, V>(e: Seq<(K, V)>, key: K)
    ensures
        entry_of(e, key) is None <==> forall|k: int| 0 <= k < e.len() ==> e[k].0 != key,
    decreases e.len(),
{
    if e.len() > 0 {
        lemma_entry_none(e.drop_last(), key);
        if entry_of(e, key) is None {
            assert forall|k: int| 0 <= k < e.len() implies e[k].0 != key by {
                if k < e.len() - 1 {
                    assert(e.drop_last()[k] == e[k]);
                }
            }
        } else {
            if e.last().0 != key {
                let k = choose|k: int| 0 <= k < e.drop_last().len() && e.drop_last()[k].0 == key;
                assert(e[k] == e.drop_last()[k]);
            }
        }
    }
}

pub proof fn lemma_entry_at<K, V>(e: Seq<(K, V)>, key: K, i: int)
    requires
        keys_unique(e),
        0 <= i < e.len(),
        e[i].0 == key,
    ensures
        entry_of(e, key) == Some(e[i].1),
    decreases e.len(),
{
    if i < e.len() - 1 {
        assert(e.last().0 != key);
        assert(e.drop_last()[i] == e[i]);
        lemma_entry_at(e.drop_last(), key, i);
    }
}

pub proof fn lemma_entry_update<K, V>(e: Seq<(K, V)>, i: int, v: V, key: K)
    requires
        0 <= i < e.len(),
        key != e[i].0,
    ensures
        entry_of(e.update(i, (e[i].0, v)), key) == entry_of(e, key),
    decreases e.len(),
{
    let e2 = e.update(i, (e[i].0, v));
    if i < e.len() - 1 {
        assert(e2.drop_last() =~= e.drop_last().update(i, (e[i].0, v)));
        lemma_entry_update(e.drop_last(), i, v, key);
    } else {
        assert(e2.drop_last() =~= e.drop_last());
    }
}

pub proof fn lemma_entry_push<K, V>(e: Seq<(K, V)>, k: K, v: V, key: K)
    ensures
        entry_of(e.push((k, v)), key) == if key == k { Some(v) } else { entry_of(e, key) },
{
    assert(e.push((k, v)).drop_last() =~= e);
}

/// Removing the pair at `i` removes its key and keeps every other key's value.
pub proof fn lemma_entry_remove<K, V>(e: Seq<(K, V)>, i: int, key: K)
    requires
        keys_unique(e),
        0 <= i < e.len(),
    ensures
        keys_unique(e.remove(i)),
        entry_of(e.remove(i), key) == if key == e[i].0 { None } else { entry_of(e, key) },
{
    let r = e.remove(i);
    assert forall|a: int, b: int| 0 <= a < b < r.len() implies r[a].0 != r[b].0 by {
        let a2 = if a < i { a } else { a + 1 };
        let b2 = if b < i { b } else { b + 1 };
        assert(r[a] == e[a2] && r[b] == e[b2]);
    }
    lemma_entry_none(r, key);
    lemma_entry_none(e, key);
    if key == e[i].0 {
        assert forall|k: int| 0 <= k < r.len() implies r[k].0 != key by {
            let k2 = if k < i { k } else { k + 1 };
            assert(r[k] == e[k2]);
        }
    } else {
        if entry_of(e, key) is Some {
            let j = choose|j: int| 0 <= j < e.len() && e[j].0 == key;
            lemma_entry_at(e, key, j);
            let j2 = if j < i { j } else { j - 1 };
            assert(r[j2] == e[j]);
            lemma_entry_at(r, key, j2);
        } else {
            assert forall|k: int| 0 <= k < r.len() implies r[k].0 != key by {
                let k2 = if k < i { k } else { k + 1 };
                assert(r[k] == e[k2]);
            }
        }
    }
}

/// A key with a value occurs in a pair holding that value.
pub proof fn lemma_entry_some<K, V>(e: Seq<(K, V)>, key: K)
    requires
        entry_of(e, key) is Some,
    ensures
        exists|k: int| 0 <= k < e.len() && e[k].0 == key && e[k].1 == entry_of(e, key).unwrap(),
    decreases e.len(),
{
    if e.last().0 == key {
        assert(e[e.len() - 1].0 == key);
    } else {
        lemma_entry_some(e.drop_last(), key);
        let k = choose|k: int| 0 <= k < e.drop_last().len() && e.drop_last()[k].0 == key
            && e.drop_last()[k].1 == entry_of(e.drop_last(), key).unwrap();
        assert(e[k] == e.drop_last()[k]);
    }
}

} // verus!
