//! Keyed stores of persisted entries.
//!
//! The registry and the log each persist entries addressed by a
//! textual key (the bottle identifier). This module gives both the
//! same mathematical reading of such a store: a first-match lookup
//! over the sequence of entries, a key-uniqueness predicate, and the
//! lemmas that say how lookup behaves under the store operations
//! (updating an entry in place, appending a fresh entry).

use vstd::prelude::*;

verus! {

/// An entry addressed by a textual key.
pub trait Keyed {
    /// The key this entry is stored under.
    spec fn key(self) -> Seq<char>;
}

/// First entry of `entries` whose key is `key`, if any.
pub open spec fn lookup<T: Keyed>(entries: Seq<T>, key: Seq<char>) -> Option<T>
    decreases entries.len(),
{
    if entries.len() == 0 {
        None
    } else if entries[0].key() == key {
        Some(entries[0])
    } else {
        lookup(entries.drop_first(), key)
    }
}

/// No two entries share a key.
pub open spec fn unique_keys<T: Keyed>(entries: Seq<T>) -> bool {
    forall|i: int, j: int|
        0 <= i < j < entries.len() ==> (#[trigger] entries[i].key()) != (#[trigger] entries[j].key())
}

/// When no entry before position `i` matches, lookup over the whole
/// store agrees with lookup over the tail that starts at `i`.
pub proof fn lemma_lookup_prefix<T: Keyed>(entries: Seq<T>, key: Seq<char>, i: int)
    requires
        0 <= i <= entries.len(),
        forall|k: int| 0 <= k < i ==> (#[trigger] entries[k].key()) != key,
    ensures
        lookup(entries, key) == lookup(entries.skip(i), key),
    decreases i,
{
    if i > 0 {
        assert(forall|k: int|
            0 <= k < i - 1 ==> (#[trigger] entries.drop_first()[k]) == entries[k + 1]);
        lemma_lookup_prefix(entries.drop_first(), key, i - 1);
        assert(entries.drop_first().skip(i - 1) =~= entries.skip(i));
    } else {
        assert(entries.skip(0) =~= entries);
    }
}

/// Lookup misses exactly when no entry carries the key.
pub proof fn lemma_lookup_none<T: Keyed>(entries: Seq<T>, key: Seq<char>)
    ensures
        lookup(entries, key) is None <==> (forall|k: int|
            0 <= k < entries.len() ==> (#[trigger] entries[k].key()) != key),
    decreases entries.len(),
{
    if entries.len() > 0 {
        lemma_lookup_none(entries.drop_first(), key);
        assert(forall|k: int|
            1 <= k < entries.len() ==> (#[trigger] entries[k].key()) == entries.drop_first()[k
                - 1].key());
    }
}

/// Replacing the entry at `i` by one with the same key: the key now
/// resolves to the replacement, and every other key resolves as
/// before. The position must hold the first entry with that key.
pub proof fn lemma_lookup_update<T: Keyed>(entries: Seq<T>, i: int, e2: T)
    requires
        0 <= i < entries.len(),
        e2.key() == entries[i].key(),
        forall|k: int| 0 <= k < i ==> (#[trigger] entries[k].key()) != entries[i].key(),
    ensures
        lookup(entries.update(i, e2), entries[i].key()) == Some(e2),
        forall|key2: Seq<char>|
            key2 != entries[i].key() ==> lookup(entries.update(i, e2), key2) == lookup(
                entries,
                key2,
            ),
    decreases entries.len(),
{
    let u = entries.update(i, e2);
    if i == 0 {
        assert(u[0] == e2);
        assert(u.drop_first() =~= entries.drop_first());
    } else {
        assert(entries.drop_first()[i - 1] == entries[i]);
        assert(forall|k: int|
            0 <= k < i - 1 ==> (#[trigger] entries.drop_first()[k]) == entries[k + 1]);
        lemma_lookup_update(entries.drop_first(), i - 1, e2);
        assert(u.drop_first() =~= entries.drop_first().update(i - 1, e2));
        assert(u[0] == entries[0]);
        assert forall|key2: Seq<char>| key2 != entries[i].key() implies lookup(u, key2) == lookup(
            entries,
            key2,
        ) by {
            if entries[0].key() == key2 {
                assert(lookup(u, key2) == Some(u[0]));
                assert(lookup(entries, key2) == Some(entries[0]));
            } else {
                assert(lookup(u, key2) == lookup(u.drop_first(), key2));
                assert(lookup(entries, key2) == lookup(entries.drop_first(), key2));
                assert(lookup(entries.drop_first().update(i - 1, e2), key2) == lookup(
                    entries.drop_first(),
                    key2,
                ));
            }
        }
    }
}

/// Appending an entry: its key resolves to it when it was absent, and
/// every other key resolves as before.
pub proof fn lemma_lookup_push<T: Keyed>(entries: Seq<T>, e: T)
    ensures
        lookup(entries, e.key()) is None ==> lookup(entries.push(e), e.key()) == Some(e),
        forall|key2: Seq<char>|
            key2 != e.key() ==> lookup(entries.push(e), key2) == lookup(entries, key2),
    decreases entries.len(),
{
    let p = entries.push(e);
    if entries.len() == 0 {
        assert(p[0] == e);
        assert(p.drop_first() =~= Seq::<T>::empty());
        assert forall|key2: Seq<char>| key2 != e.key() implies lookup(p, key2) == lookup(
            entries,
            key2,
        ) by {
            assert(lookup(p, key2) == lookup(p.drop_first(), key2));
        }
    } else {
        lemma_lookup_push(entries.drop_first(), e);
        assert(p.drop_first() =~= entries.drop_first().push(e));
        assert(p[0] == entries[0]);
        assert forall|key2: Seq<char>| key2 != e.key() implies lookup(p, key2) == lookup(
            entries,
            key2,
        ) by {
            if entries[0].key() == key2 {
                assert(lookup(p, key2) == Some(p[0]));
                assert(lookup(entries, key2) == Some(entries[0]));
            } else {
                assert(lookup(p, key2) == lookup(p.drop_first(), key2));
                assert(lookup(entries, key2) == lookup(entries.drop_first(), key2));
                assert(lookup(entries.drop_first().push(e), key2) == lookup(
                    entries.drop_first(),
                    key2,
                ));
            }
        }
    }
}

/// Key uniqueness survives replacing an entry by one with the same
/// key.
pub proof fn lemma_unique_update<T: Keyed>(entries: Seq<T>, i: int, e2: T)
    requires
        unique_keys(entries),
        0 <= i < entries.len(),
        e2.key() == entries[i].key(),
    ensures
        unique_keys(entries.update(i, e2)),
{
    let u = entries.update(i, e2);
    assert forall|p: int, q: int| 0 <= p < q < u.len() implies u[p].key() != u[q].key() by {
        assert(entries[p].key() != entries[q].key());
        assert(u[p].key() == entries[p].key());
        assert(u[q].key() == entries[q].key());
    }
}

/// Key uniqueness survives appending an entry whose key is absent.
pub proof fn lemma_unique_push<T: Keyed>(entries: Seq<T>, e: T)
    requires
        unique_keys(entries),
        forall|k: int| 0 <= k < entries.len() ==> (#[trigger] entries[k].key()) != e.key(),
    ensures
        unique_keys(entries.push(e)),
{
    let p = entries.push(e);
    assert forall|i: int, j: int| 0 <= i < j < p.len() implies p[i].key() != p[j].key() by {
        if j < entries.len() {
            assert(entries[i].key() != entries[j].key());
        } else {
            assert(entries[i].key() != e.key());
        }
    }
}

} // verus!
