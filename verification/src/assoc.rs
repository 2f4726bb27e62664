//! Association lists: sequences of key/value pairs read as maps, the first
//! entry of a key giving its value.
use vstd::prelude::*;

verus! {

/// The value of key `k` among the entries of `s` from the `i`-th on, if any.
pub open spec fn assoc_from<K, V>(s: Seq<(K, V)>, k: K, i: int) -> Option<V>
    decreases s.len() - i,
{
    if i < 0 || i >= s.len() {
        None
    } else if s[i].0 == k {
        Some(s[i].1)
    } else {
        assoc_from(s, k, i + 1)
    }
}

/// The value of key `k` in `s`, if it has one.
pub open spec fn assoc_get<K, V>(s: Seq<(K, V)>, k: K) -> Option<V> {
    assoc_from(s, k, 0)
}

/// The map that `s` stands for.
pub open spec fn assoc_map<K, V>(s: Seq<(K, V)>) -> Map<K, V> {
    Map::new(|k: K| assoc_get(s, k) is Some, |k: K| assoc_get(s, k).unwrap())
}

/// No key appears twice.
pub open spec fn keys_unique<K, V>(s: Seq<(K, V)>) -> bool {
    forall|i: int, j: int| 0 <= i < j < s.len() ==> (#[trigger] s[i]).0 != (#[trigger] s[j]).0
}

proof fn lemma_assoc_from_at<K, V>(s: Seq<(K, V)>, i: int, k: int)
    requires
        keys_unique(s),
        0 <= k <= i < s.len(),
    ensures
        assoc_from(s, s[i].0, k) == Some(s[i].1),
    decreases i - k,
{
    if k < i {
        assert(s[k].0 != s[i].0);
        lemma_assoc_from_at(s, i, k + 1);
    }
}

/// In a list without repeated keys, each entry gives its key's value.
pub proof fn lemma_assoc_at<K, V>(s: Seq<(K, V)>, i: int)
    requires
        keys_unique(s),
        0 <= i < s.len(),
    ensures
        assoc_get(s, s[i].0) == Some(s[i].1),
{
    lemma_assoc_from_at(s, i, 0);
}

proof fn lemma_assoc_from_none<K, V>(s: Seq<(K, V)>, key: K, k: int)
    requires
        0 <= k <= s.len(),
        forall|j: int| k <= j < s.len() ==> (#[trigger] s[j]).0 != key,
    ensures
        assoc_from(s, key, k) is None,
    decreases s.len() - k,
{
    if k < s.len() {
        lemma_assoc_from_none(s, key, k + 1);
    }
}

/// A key that no entry has has no value.
pub proof fn lemma_assoc_none<K, V>(s: Seq<(K, V)>, key: K)
    requires
        forall|j: int| 0 <= j < s.len() ==> (#[trigger] s[j]).0 != key,
    ensures
        assoc_get(s, key) is None,
{
    lemma_assoc_from_none(s, key, 0);
}

proof fn lemma_assoc_from_some<K, V>(s: Seq<(K, V)>, key: K, k: int)
    requires
        0 <= k <= s.len(),
        assoc_from(s, key, k) is Some,
    ensures
        exists|j: int| k <= j < s.len() && #[trigger] s[j] == (key, assoc_from(s, key, k).unwrap()),
    decreases s.len() - k,
{
    if s[k].0 != key {
        lemma_assoc_from_some(s, key, k + 1);
    } else {
        assert(s[k] == (key, assoc_from(s, key, k).unwrap()));
    }
}

/// A value that a key has comes from an entry of the list.
pub proof fn lemma_assoc_some<K, V>(s: Seq<(K, V)>, key: K)
    requires
        assoc_get(s, key) is Some,
    ensures
        exists|j: int| 0 <= j < s.len() && #[trigger] s[j] == (key, assoc_get(s, key).unwrap()),
{
    lemma_assoc_from_some(s, key, 0);
}

proof fn lemma_assoc_from_update<K, V>(s: Seq<(K, V)>, i: int, v: V, other: K, k: int)
    requires
        0 <= i < s.len(),
        0 <= k <= s.len(),
        other != s[i].0,
    ensures
        assoc_from(s.update(i, (s[i].0, v)), other, k) == assoc_from(s, other, k),
    decreases s.len() - k,
{
    if k < s.len() {
        lemma_assoc_from_update(s, i, v, other, k + 1);
    }
}

proof fn lemma_assoc_from_push<K, V>(s: Seq<(K, V)>, x: (K, V), other: K, k: int)
    requires
        other != x.0,
        0 <= k <= s.len(),
    ensures
        assoc_from(s.push(x), other, k) == assoc_from(s, other, k),
    decreases s.len() - k,
{
    if k < s.len() {
        assert(s.push(x)[k] == s[k]);
        lemma_assoc_from_push(s, x, other, k + 1);
    } else {
        assert(s.push(x)[k] == x);
        assert(assoc_from(s.push(x), other, k + 1) is None);
    }
}

/// Setting the value of an existing entry of key `s[i].0` to `v` sets that
/// key in the map and leaves every other key alone.
pub proof fn lemma_assoc_map_update<K, V>(s: Seq<(K, V)>, i: int, v: V)
    requires
        keys_unique(s),
        0 <= i < s.len(),
    ensures
        keys_unique(s.update(i, (s[i].0, v))),
        assoc_map(s.update(i, (s[i].0, v))) == assoc_map(s).insert(s[i].0, v),
{
    let t = s.update(i, (s[i].0, v));
    assert forall|a: int, b: int| 0 <= a < b < t.len() implies (#[trigger] t[a]).0 != (#[trigger] t[b]).0 by {
        assert(s[a].0 != s[b].0);
    }
    lemma_assoc_at(t, i);
    assert forall|other: K| other != s[i].0 implies #[trigger] assoc_get(t, other) == assoc_get(s, other) by {
        lemma_assoc_from_update(s, i, v, other, 0);
    }
    assert(assoc_map(t) =~= assoc_map(s).insert(s[i].0, v));
}

/// Appending an entry of a new key adds that key to the map and leaves every
/// other key alone.
pub proof fn lemma_assoc_map_push<K, V>(s: Seq<(K, V)>, k: K, v: V)
    requires
        keys_unique(s),
        forall|j: int| 0 <= j < s.len() ==> (#[trigger] s[j]).0 != k,
    ensures
        keys_unique(s.push((k, v))),
        assoc_map(s.push((k, v))) == assoc_map(s).insert(k, v),
{
    let t = s.push((k, v));
    assert forall|a: int, b: int| 0 <= a < b < t.len() implies (#[trigger] t[a]).0 != (#[trigger] t[b]).0 by {
        if b < s.len() {
            assert(s[a].0 != s[b].0);
        } else {
            assert(t[a] == s[a]);
        }
    }
    lemma_assoc_at(t, s.len() as int);
    assert forall|other: K| other != k implies #[trigger] assoc_get(t, other) == assoc_get(s, other) by {
        lemma_assoc_from_push(s, (k, v), other, 0);
    }
    assert(assoc_map(t) =~= assoc_map(s).insert(k, v));
}

/// Without entries, the map is empty.
pub proof fn lemma_assoc_map_empty<K, V>(s: Seq<(K, V)>)
    requires
        s.len() == 0,
    ensures
        assoc_map(s) == Map::<K, V>::empty(),
{
    assert(assoc_map(s) =~= Map::<K, V>::empty());
}

} // verus!
