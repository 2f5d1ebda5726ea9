//! The sequence of entries of an insertion-ordered map.

use vstd::prelude::*;

verus! {

/// Whether `key` occurs in `entries`.
pub open spec fn has_key<K, V>(entries: Seq<(K, V)>, key: K) -> bool {
    exists|i: int| 0 <= i < entries.len() && #[trigger] entries[i].0 == key
}

/// Where `key` occurs in `entries`.
pub open spec fn position<K, V>(entries: Seq<(K, V)>, key: K) -> int {
    choose|i: int| 0 <= i < entries.len() && #[trigger] entries[i].0 == key
}

/// Whether no key occurs twice.
pub open spec fn distinct<K, V>(entries: Seq<(K, V)>) -> bool {
    forall|i: int, j: int|
        0 <= i < j < entries.len() ==> #[trigger] entries[i].0 != #[trigger] entries[j].0
}

/// The value that is held under `key`, if any.
pub open spec fn lookup<K, V>(entries: Seq<(K, V)>, key: K) -> Option<V> {
    if has_key(entries, key) {
        Some(entries[position(entries, key)].1)
    } else {
        None
    }
}

/// The entries after `value` is inserted under `key`: a key that is present keeps
/// its place, a new one comes last.
pub open spec fn inserted<K, V>(entries: Seq<(K, V)>, key: K, value: V) -> Seq<(K, V)> {
    if has_key(entries, key) {
        entries.update(position(entries, key), (key, value))
    } else {
        entries.push((key, value))
    }
}

/// The entries after `key` is removed: the last entry takes the place of the one
/// that leaves.
pub open spec fn swap_removed<K, V>(entries: Seq<(K, V)>, key: K) -> Seq<(K, V)> {
    if has_key(entries, key) {
        entries.update(position(entries, key), entries.last()).drop_last()
    } else {
        entries
    }
}

/// The map from keys to values that `entries` describes.
pub open spec fn as_map<K, V>(entries: Seq<(K, V)>) -> Map<K, V> {
    Map::new(|k: K| has_key(entries, k), |k: K| entries[position(entries, k)].1)
}

/// A key that occurs at `i` is found there.
pub proof fn lemma_position<K, V>(entries: Seq<(K, V)>, i: int)
    requires
        distinct(entries),
        0 <= i < entries.len(),
    ensures
        has_key(entries, entries[i].0),
        position(entries, entries[i].0) == i,
        lookup(entries, entries[i].0) == Some(entries[i].1),
{
    let p = position(entries, entries[i].0);
    assert(0 <= p < entries.len() && entries[p].0 == entries[i].0);
}

/// Inserting keeps the keys distinct and updates the map.
pub proof fn lemma_inserted<K, V>(entries: Seq<(K, V)>, key: K, value: V)
    requires
        distinct(entries),
    ensures
        distinct(inserted(entries, key, value)),
        as_map(inserted(entries, key, value)) == as_map(entries).insert(key, value),
        inserted(entries, key, value).len() > 0,
{
    let after = inserted(entries, key, value);
    if has_key(entries, key) {
        let p = position(entries, key);
        assert(entries[p].0 == key);
        assert(after[p] == (key, value));
    } else {
        assert(after[entries.len() as int] == (key, value));
    }
    assert(distinct(after));
    assert forall|k: K| has_key(after, k) <==> has_key(entries, k) || k == key by {
        if has_key(entries, k) {
            let p = position(entries, k);
            assert(after[p].0 == k);
        }
        if k == key {
            let p = if has_key(entries, key) {
                position(entries, key)
            } else {
                entries.len() as int
            };
            assert(after[p].0 == k);
        }
        if has_key(after, k) && k != key {
            let p = position(after, k);
            assert(entries[p].0 == k);
        }
    }
    assert forall|k: K| has_key(after, k) implies #[trigger] after[position(after, k)].1 == (
    if k == key {
        value
    } else {
        entries[position(entries, k)].1
    }) by {
        let p = position(after, k);
        if k == key {
            let q = if has_key(entries, key) {
                position(entries, key)
            } else {
                entries.len() as int
            };
            lemma_position(after, q);
        } else {
            assert(entries[p].0 == k);
            lemma_position(entries, p);
        }
    }
    assert(as_map(after) =~= as_map(entries).insert(key, value));
}

/// Removing keeps the keys distinct and updates the map.
pub proof fn lemma_swap_removed<K, V>(entries: Seq<(K, V)>, key: K)
    requires
        distinct(entries),
    ensures
        distinct(swap_removed(entries, key)),
        as_map(swap_removed(entries, key)) == as_map(entries).remove(key),
{
    let after = swap_removed(entries, key);
    if has_key(entries, key) {
        let p = position(entries, key);
        let last = entries.len() - 1;
        assert(entries[p].0 == key);
        assert forall|i: int| 0 <= i < after.len() implies #[trigger] after[i] == (if i == p {
            entries[last]
        } else {
            entries[i]
        }) by {}
        assert(distinct(after));
        assert forall|k: K| has_key(after, k) <==> has_key(entries, k) && k != key by {
            if has_key(entries, k) && k != key {
                let q = position(entries, k);
                assert(entries[q].0 == k);
                if q == last {
                    assert(p != last);
                    assert(after[p].0 == k);
                } else {
                    assert(after[q].0 == k);
                }
            }
            if has_key(after, k) {
                let q = position(after, k);
                let r = if q == p {
                    last
                } else {
                    q
                };
                assert(entries[r].0 == k);
                assert(r != p);
                assert(entries[p].0 != entries[r].0);
            }
        }
        assert forall|k: K| has_key(after, k) implies #[trigger] after[position(after, k)].1
            == entries[position(entries, k)].1 by {
            let q = position(after, k);
            let r = if q == p {
                last
            } else {
                q
            };
            assert(entries[r].0 == k);
            lemma_position(entries, r);
        }
        assert(as_map(after) =~= as_map(entries).remove(key));
    } else {
        assert(as_map(after) =~= as_map(entries).remove(key));
    }
}

} // verus!
