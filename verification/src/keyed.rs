//! Lookup by key in a sequence of keyed entries.
//!
//! Every piece of persistent state in this crate is a vector of entries, each
//! carrying its own key (a hunt id, an account address, a hunt/player pair).
//! This module gives the one spec-level lookup function those vectors share,
//! and the lemmas that connect it to indexing, updating and appending.

use vstd::prelude::*;

verus! {

/// The first entry of `s` whose key under `key` equals `k`, if any.
pub open spec fn find_by<T, K>(s: Seq<T>, key: spec_fn(T) -> K, k: K) -> Option<T>
    decreases s.len(),
{
    if s.len() == 0 {
        None
    } else if key(s[0]) == k {
        Some(s[0])
    } else {
        find_by(s.drop_first(), key, k)
    }
}

/// No two entries of `s` share a key under `key`.
pub open spec fn distinct_keys<T, K>(s: Seq<T>, key: spec_fn(T) -> K) -> bool {
    forall|i: int, j: int| 0 <= i < j < s.len() ==> key(s[i]) != key(s[j])
}

/// The lookup misses exactly when no entry carries the key.
pub proof fn lemma_find_by_none<T, K>(s: Seq<T>, key: spec_fn(T) -> K, k: K)
    ensures
        (find_by(s, key, k) is None) <==> (forall|i: int| 0 <= i < s.len() ==> key(s[i]) != k),
    decreases s.len(),
{
    if s.len() > 0 {
        lemma_find_by_none(s.drop_first(), key, k);
        assert(forall|i: int| 0 <= i < s.drop_first().len() ==> s.drop_first()[i] == s[i + 1]);
        if key(s[0]) != k {
            if find_by(s, key, k) is None {
                assert forall|i: int| 0 <= i < s.len() implies key(s[i]) != k by {
                    if i > 0 {
                        assert(s[i] == s.drop_first()[i - 1]);
                    }
                }
            } else {
                if forall|i: int| 0 <= i < s.len() ==> key(s[i]) != k {
                    assert forall|i: int| 0 <= i < s.drop_first().len() implies key(
                        s.drop_first()[i],
                    ) != k by {
                        assert(s.drop_first()[i] == s[i + 1]);
                    }
                    assert(find_by(s.drop_first(), key, k) is None);
                }
            }
        }
    }
}

/// A hit found by scanning from the front is what the lookup returns.
pub proof fn lemma_find_by_index<T, K>(s: Seq<T>, key: spec_fn(T) -> K, i: int)
    requires
        0 <= i < s.len(),
        forall|j: int| 0 <= j < i ==> key(s[j]) != key(s[i]),
    ensures
        find_by(s, key, key(s[i])) == Some(s[i]),
    decreases i,
{
    if i > 0 {
        assert(key(s[0]) != key(s[i]));
        assert(s.drop_first()[i - 1] == s[i]);
        assert forall|j: int| 0 <= j < i - 1 implies key(#[trigger] s.drop_first()[j]) != key(
            s.drop_first()[i - 1],
        ) by {
            assert(s.drop_first()[j] == s[j + 1]);
        }
        lemma_find_by_index(s.drop_first(), key, i - 1);
    }
}

/// What the lookup returns is an entry of the sequence.
pub proof fn lemma_find_by_mem<T, K>(s: Seq<T>, key: spec_fn(T) -> K, k: K)
    ensures
        match find_by(s, key, k) {
            Some(t) => key(t) == k && exists|i: int| 0 <= i < s.len() && s[i] == t,
            None => true,
        },
    decreases s.len(),
{
    if s.len() > 0 && key(s[0]) != k {
        lemma_find_by_mem(s.drop_first(), key, k);
        if find_by(s, key, k) is Some {
            let t = find_by(s, key, k)->Some_0;
            let i = choose|i: int| 0 <= i < s.drop_first().len() && s.drop_first()[i] == t;
            assert(s[i + 1] == t);
        }
    }
}

/// Replacing the entry at `i` by one with the same key moves every lookup of
/// that key to the new entry and leaves every other lookup unchanged.
pub proof fn lemma_find_by_update<T, K>(s: Seq<T>, key: spec_fn(T) -> K, i: int, t: T)
    requires
        0 <= i < s.len(),
        distinct_keys(s, key),
        key(t) == key(s[i]),
    ensures
        distinct_keys(s.update(i, t), key),
        forall|k: K| #[trigger] find_by(s.update(i, t), key, k) == (if k == key(t) {
            Some(t)
        } else {
            find_by(s, key, k)
        }),
    decreases s.len(),
{
    let s2 = s.update(i, t);
    assert(forall|j: int| 0 <= j < s.len() && j != i ==> s2[j] == s[j]);
    assert(s2[i] == t);
    if i == 0 {
        assert(s2.drop_first() =~= s.drop_first());
        assert forall|k: K| #[trigger] find_by(s2, key, k) == (if k == key(t) {
            Some(t)
        } else {
            find_by(s, key, k)
        }) by {
            if k != key(t) {
                assert(find_by(s2, key, k) == find_by(s2.drop_first(), key, k));
                assert(find_by(s, key, k) == find_by(s.drop_first(), key, k));
            }
        }
    } else {
        assert(s2.drop_first() =~= s.drop_first().update(i - 1, t));
        assert forall|j1: int, j2: int|
            0 <= j1 < j2 < s.drop_first().len() implies key(#[trigger] s.drop_first()[j1]) != key(
            #[trigger] s.drop_first()[j2],
        ) by {
            assert(s.drop_first()[j1] == s[j1 + 1]);
            assert(s.drop_first()[j2] == s[j2 + 1]);
        }
        assert(s.drop_first()[i - 1] == s[i]);
        lemma_find_by_update(s.drop_first(), key, i - 1, t);
        assert(key(s2[0]) == key(s[0]));
        assert(key(s[0]) != key(t));
        assert forall|k: K| #[trigger] find_by(s2, key, k) == (if k == key(t) {
            Some(t)
        } else {
            find_by(s, key, k)
        }) by {
            if k == key(s[0]) {
                assert(find_by(s2, key, k) == Some(s2[0]));
                assert(find_by(s, key, k) == Some(s[0]));
            } else {
                assert(find_by(s2, key, k) == find_by(s2.drop_first(), key, k));
                assert(find_by(s, key, k) == find_by(s.drop_first(), key, k));
            }
        }
    }
}

/// Appending an entry with a fresh key adds exactly one lookup hit.
pub proof fn lemma_find_by_push<T, K>(s: Seq<T>, key: spec_fn(T) -> K, t: T)
    requires
        find_by(s, key, key(t)) is None,
    ensures
        distinct_keys(s, key) ==> distinct_keys(s.push(t), key),
        forall|k: K| #[trigger] find_by(s.push(t), key, k) == (if k == key(t) {
            Some(t)
        } else {
            find_by(s, key, k)
        }),
    decreases s.len(),
{
    lemma_find_by_none(s, key, key(t));
    let s2 = s.push(t);
    assert(forall|j: int| 0 <= j < s.len() ==> s2[j] == s[j]);
    assert(s2[s.len() as int] == t);
    if s.len() == 0 {
        assert(s2.len() == 1);
        assert forall|k: K| #[trigger] find_by(s2, key, k) == (if k == key(t) {
            Some(t)
        } else {
            find_by(s, key, k)
        }) by {
            if k == key(t) {
                assert(find_by(s2, key, k) == Some(s2[0]));
            } else {
                assert(s2.drop_first() =~= Seq::<T>::empty());
                assert(find_by(Seq::<T>::empty(), key, k) is None);
                assert(find_by(s2, key, k) == find_by(s2.drop_first(), key, k));
                assert(find_by(s, key, k) is None);
            }
        }
    } else {
        assert(s2.drop_first() =~= s.drop_first().push(t));
        assert(find_by(s.drop_first(), key, key(t)) is None);
        lemma_find_by_push(s.drop_first(), key, t);
        assert forall|k: K| #[trigger] find_by(s2, key, k) == (if k == key(t) {
            Some(t)
        } else {
            find_by(s, key, k)
        }) by {
            if k == key(s2[0]) {
            } else {
                assert(find_by(s2, key, k) == find_by(s2.drop_first(), key, k));
            }
        }
        if distinct_keys(s, key) {
            assert forall|i1: int, i2: int| 0 <= i1 < i2 < s2.len() implies key(#[trigger] s2[i1])
                != key(#[trigger] s2[i2]) by {
                if i2 == s.len() {
                    assert(key(s[i1]) != key(t));
                }
            }
        }
    }
}

} // verus!
