//! Key-value lists read as maps: the value of a key is that of its last
//! entry. Tables of the library store entries in a `Vec` and are specified
//! through this reading.
use vstd::prelude::*;

verus! {

/// The map that a list of entries stands for: later entries of a key win.
pub open spec fn keyed_map<K, V>(s: Seq<(K, V)>) -> Map<K, V>
    decreases s.len(),
{
    if s.len() == 0 {
        Map::empty()
    } else {
        keyed_map(s.drop_last()).insert(s.last().0, s.last().1)
    }
}

/// Entry `k` is the last entry of its key.
pub open spec fn last_of_key<K, V>(s: Seq<(K, V)>, k: int) -> bool {
    &&& 0 <= k < s.len()
    &&& forall|j: int| k < j < s.len() ==> #[trigger] s[j].0 != s[k].0
}

/// The last entry of a key gives the key's value.
pub proof fn lemma_keyed_last<K, V>(s: Seq<(K, V)>, k: int)
    requires
        last_of_key(s, k),
    ensures
        keyed_map(s).contains_key(s[k].0),
        keyed_map(s)[s[k].0] == s[k].1,
    decreases s.len(),
{
    if k < s.len() - 1 {
        lemma_keyed_last(s.drop_last(), k);
    }
}

/// A key with no entry is absent.
pub proof fn lemma_keyed_absent<K, V>(s: Seq<(K, V)>, key: K)
    requires
        forall|j: int| 0 <= j < s.len() ==> #[trigger] s[j].0 != key,
    ensures
        !keyed_map(s).contains_key(key),
    decreases s.len(),
{
    if s.len() > 0 {
        lemma_keyed_absent(s.drop_last(), key);
    }
}

/// Overwriting the last entry of a key sets the key's value.
pub proof fn lemma_keyed_update<K, V>(s: Seq<(K, V)>, k: int, v: V)
    requires
        last_of_key(s, k),
    ensures
        keyed_map(s.update(k, (s[k].0, v))) == keyed_map(s).insert(s[k].0, v),
    decreases s.len(),
{
    let t = s.update(k, (s[k].0, v));
    if k == s.len() - 1 {
        assert(t.drop_last() =~= s.drop_last());
    } else {
        assert(t.drop_last() =~= s.drop_last().update(k, (s[k].0, v)));
        lemma_keyed_update(s.drop_last(), k, v);
    }
    assert(keyed_map(t) =~= keyed_map(s).insert(s[k].0, v));
}

/// Appending an entry sets its key's value.
pub proof fn lemma_keyed_push<K, V>(s: Seq<(K, V)>, key: K, v: V)
    ensures
        keyed_map(s.push((key, v))) == keyed_map(s).insert(key, v),
{
    assert(s.push((key, v)).drop_last() =~= s);
}

} // verus!
