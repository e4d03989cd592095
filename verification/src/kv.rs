//! Keyed sequences as finite maps.
//!
//! The account state holds its keyed collections as vectors with unique
//! keys; contracts speak of the finite map read off such a sequence. This
//! module defines that reading and the lemmas that connect sequence edits
//! to map edits.

use vstd::prelude::*;

verus! {

/// The map read off an association sequence: a later entry with the same
/// key wins.
pub open spec fn kv_map<T, K, V>(s: Seq<T>, key: spec_fn(T) -> K, val: spec_fn(T) -> V) -> Map<
    K,
    V,
>
    decreases s.len(),
{
    if s.len() == 0 {
        Map::empty()
    } else {
        kv_map(s.drop_last(), key, val).insert(key(s.last()), val(s.last()))
    }
}

/// Entries of `s` inserted into `m`, in order.
pub open spec fn kv_insert_all<T, K, V>(
    m: Map<K, V>,
    s: Seq<T>,
    key: spec_fn(T) -> K,
    val: spec_fn(T) -> V,
) -> Map<K, V>
    decreases s.len(),
{
    if s.len() == 0 {
        m
    } else {
        kv_insert_all(m, s.drop_last(), key, val).insert(key(s.last()), val(s.last()))
    }
}

/// Keys of `s` removed from `m`.
pub open spec fn kv_remove_all<T, K, V>(m: Map<K, V>, s: Seq<T>, key: spec_fn(T) -> K) -> Map<
    K,
    V,
>
    decreases s.len(),
{
    if s.len() == 0 {
        m
    } else {
        kv_remove_all(m, s.drop_last(), key).remove(key(s.last()))
    }
}

/// The element-wise views of a sequence of values.
pub open spec fn views<T: View>(s: Seq<T>) -> Seq<T::V> {
    Seq::new(s.len(), |i: int| s[i]@)
}

/// Some entry of `s` carries the key `k`.
pub open spec fn has_key<T, K>(s: Seq<T>, key: spec_fn(T) -> K, k: K) -> bool {
    exists|i: int| 0 <= i < s.len() && key(#[trigger] s[i]) == k
}

/// No two entries of `s` share a key.
pub open spec fn unique_keys<T, K>(s: Seq<T>, key: spec_fn(T) -> K) -> bool {
    forall|i: int, j: int| 0 <= i < j < s.len() ==> key(#[trigger] s[i]) != key(#[trigger] s[j])
}

pub proof fn lemma_has_key_drop_last<T, K>(s: Seq<T>, key: spec_fn(T) -> K, k: K)
    requires
        s.len() > 0,
    ensures
        has_key(s, key, k) <==> (has_key(s.drop_last(), key, k) || key(s.last()) == k),
{
    if has_key(s, key, k) {
        let i = choose|i: int| 0 <= i < s.len() && key(#[trigger] s[i]) == k;
        if i < s.len() - 1 {
            assert(key(s.drop_last()[i]) == k);
        }
    }
    if has_key(s.drop_last(), key, k) {
        let i = choose|i: int| 0 <= i < s.drop_last().len() && key(#[trigger] s.drop_last()[i])
            == k;
        assert(key(s[i]) == k);
    }
}

pub proof fn lemma_kv_map_is_insert_all<T, K, V>(s: Seq<T>, key: spec_fn(T) -> K, val: spec_fn(
    T,
) -> V)
    ensures
        kv_map(s, key, val) == kv_insert_all(Map::<K, V>::empty(), s, key, val),
    decreases s.len(),
{
    if s.len() > 0 {
        lemma_kv_map_is_insert_all(s.drop_last(), key, val);
    }
}

/// A key is in the map exactly when some entry carries it.
pub proof fn lemma_kv_contains<T, K, V>(s: Seq<T>, key: spec_fn(T) -> K, val: spec_fn(T) -> V, k: K)
    ensures
        kv_map(s, key, val).contains_key(k) <==> has_key(s, key, k),
    decreases s.len(),
{
    if s.len() > 0 {
        lemma_kv_contains(s.drop_last(), key, val, k);
        lemma_has_key_drop_last(s, key, k);
    }
}

/// With unique keys, the map sends each entry's key to its value.
pub proof fn lemma_kv_index<T, K, V>(s: Seq<T>, key: spec_fn(T) -> K, val: spec_fn(T) -> V, i: int)
    requires
        unique_keys(s, key),
        0 <= i < s.len(),
    ensures
        kv_map(s, key, val).contains_key(key(s[i])),
        kv_map(s, key, val)[key(s[i])] == val(s[i]),
    decreases s.len(),
{
    if i < s.len() - 1 {
        assert(key(s[i]) != key(s[s.len() - 1]));
        assert(unique_keys(s.drop_last(), key)) by {
            assert(forall|a: int|
                0 <= a < s.len() - 1 ==> #[trigger] s.drop_last()[a] == s[a]);
        }
        assert(s.drop_last()[i] == s[i]);
        lemma_kv_index(s.drop_last(), key, val, i);
    }
}

/// Pushing a fresh entry is a map insert.
pub proof fn lemma_kv_push<T, K, V>(s: Seq<T>, key: spec_fn(T) -> K, val: spec_fn(T) -> V, x: T)
    ensures
        kv_map(s.push(x), key, val) == kv_map(s, key, val).insert(key(x), val(x)),
{
    assert(s.push(x).drop_last() =~= s);
    assert(s.push(x).last() == x);
}

/// Replacing the entry that holds a key is a map insert of that key.
pub proof fn lemma_kv_update<T, K, V>(
    s: Seq<T>,
    key: spec_fn(T) -> K,
    val: spec_fn(T) -> V,
    i: int,
    x: T,
)
    requires
        unique_keys(s, key),
        0 <= i < s.len(),
        key(x) == key(s[i]),
    ensures
        kv_map(s.update(i, x), key, val) == kv_map(s, key, val).insert(key(x), val(x)),
        unique_keys(s.update(i, x), key),
    decreases s.len(),
{
    let su = s.update(i, x);
    assert(unique_keys(su, key)) by {
        assert forall|a: int, b: int| 0 <= a < b < su.len() implies key(#[trigger] su[a]) != key(
            #[trigger] su[b],
        ) by {
            if a != i && b != i {
                assert(su[a] == s[a] && su[b] == s[b]);
            } else if a == i {
                assert(key(su[a]) == key(s[i]) && su[b] == s[b]);
            } else {
                assert(su[a] == s[a] && key(su[b]) == key(s[i]));
            }
        }
    }
    if i == s.len() - 1 {
        assert(su.drop_last() =~= s.drop_last());
        assert(su.last() == x);
    } else {
        assert(su.drop_last() =~= s.drop_last().update(i, x));
        assert(su.last() == s.last());
        assert(unique_keys(s.drop_last(), key)) by {
            assert(forall|a: int|
                0 <= a < s.len() - 1 ==> #[trigger] s.drop_last()[a] == s[a]);
        }
        assert(s.drop_last()[i] == s[i]);
        lemma_kv_update(s.drop_last(), key, val, i, x);
        assert(key(x) != key(s.last()));
        assert(kv_map(su, key, val) =~= kv_map(s, key, val).insert(key(x), val(x)));
    }
}

/// Removing the entry that holds a key is a map remove of that key.
pub proof fn lemma_kv_remove<T, K, V>(s: Seq<T>, key: spec_fn(T) -> K, val: spec_fn(T) -> V, i: int)
    requires
        unique_keys(s, key),
        0 <= i < s.len(),
    ensures
        kv_map(s.remove(i), key, val) == kv_map(s, key, val).remove(key(s[i])),
        unique_keys(s.remove(i), key),
    decreases s.len(),
{
    let sr = s.remove(i);
    assert(unique_keys(sr, key)) by {
        assert forall|a: int, b: int| 0 <= a < b < sr.len() implies key(#[trigger] sr[a]) != key(
            #[trigger] sr[b],
        ) by {
            let a0 = if a < i {
                a
            } else {
                a + 1
            };
            let b0 = if b < i {
                b
            } else {
                b + 1
            };
            assert(sr[a] == s[a0]);
            assert(sr[b] == s[b0]);
        }
    }
    if i == s.len() - 1 {
        assert(sr =~= s.drop_last());
        assert(!has_key(s.drop_last(), key, key(s[i]))) by {
            assert forall|j: int| 0 <= j < s.drop_last().len() implies key(
                #[trigger] s.drop_last()[j],
            ) != key(s[i]) by {
                assert(s.drop_last()[j] == s[j]);
            }
        }
        lemma_kv_contains(s.drop_last(), key, val, key(s[i]));
        assert(kv_map(sr, key, val) =~= kv_map(s, key, val).remove(key(s[i])));
    } else {
        assert(sr.drop_last() =~= s.drop_last().remove(i));
        assert(sr.last() == s.last());
        assert(unique_keys(s.drop_last(), key)) by {
            assert(forall|a: int|
                0 <= a < s.len() - 1 ==> #[trigger] s.drop_last()[a] == s[a]);
        }
        assert(s.drop_last()[i] == s[i]);
        lemma_kv_remove(s.drop_last(), key, val, i);
        assert(key(s[i]) != key(s.last()));
        assert(kv_map(sr, key, val) =~= kv_map(s, key, val).remove(key(s[i])));
    }
}

/// Membership after inserting every entry of a sequence.
pub proof fn lemma_insert_all_contains<T, K, V>(
    m: Map<K, V>,
    s: Seq<T>,
    key: spec_fn(T) -> K,
    val: spec_fn(T) -> V,
    k: K,
)
    ensures
        kv_insert_all(m, s, key, val).contains_key(k) <==> m.contains_key(k) || has_key(s, key, k),
    decreases s.len(),
{
    if s.len() > 0 {
        lemma_insert_all_contains(m, s.drop_last(), key, val, k);
        lemma_has_key_drop_last(s, key, k);
    }
}

/// Membership after removing every key of a sequence.
pub proof fn lemma_remove_all_contains<T, K, V>(m: Map<K, V>, s: Seq<T>, key: spec_fn(T) -> K, k: K)
    ensures
        kv_remove_all(m, s, key).contains_key(k) <==> m.contains_key(k) && !has_key(s, key, k),
    decreases s.len(),
{
    if s.len() > 0 {
        lemma_remove_all_contains(m, s.drop_last(), key, k);
        lemma_has_key_drop_last(s, key, k);
    }
}

/// Taking the first element off a suffix of views moves the suffix along.
pub proof fn lemma_views_remove_first<T: View>(r0: Seq<T>, orig: Seq<T::V>, k: int)
    requires
        0 <= k <= orig.len(),
        r0.len() > 0,
        views(r0) == orig.skip(k),
    ensures
        views(r0.remove(0)) =~= orig.skip(k + 1),
        r0[0]@ == orig[k],
{
    assert(views(r0).len() == orig.len() - k);
    assert(r0[0]@ == views(r0)[0]);
    assert(views(r0)[0] == orig.skip(k)[0]);
    assert(orig.skip(k)[0] == orig[k]);
    assert forall|j: int| 0 <= j < views(r0.remove(0)).len() implies views(r0.remove(0))[j]
        == orig.skip(k + 1)[j] by {
        assert(r0.remove(0)[j] == r0[j + 1]);
        assert(views(r0.remove(0))[j] == r0[j + 1]@);
        assert(r0[j + 1]@ == views(r0)[j + 1]);
        assert(views(r0)[j + 1] == orig.skip(k)[j + 1]);
        assert(orig.skip(k)[j + 1] == orig[k + 1 + j]);
        assert(orig.skip(k + 1)[j] == orig[k + 1 + j]);
    }
}

/// Pushing an entry whose key is fresh keeps keys unique.
pub proof fn lemma_unique_push<T, K>(s: Seq<T>, key: spec_fn(T) -> K, x: T)
    requires
        unique_keys(s, key),
        !has_key(s, key, key(x)),
    ensures
        unique_keys(s.push(x), key),
{
    let sp = s.push(x);
    assert forall|a: int, b: int| 0 <= a < b < sp.len() implies key(#[trigger] sp[a]) != key(
        #[trigger] sp[b],
    ) by {
        if b == s.len() {
            assert(sp[a] == s[a]);
            if key(s[a]) == key(x) {
                assert(has_key(s, key, key(x)));
            }
        } else {
            assert(sp[a] == s[a] && sp[b] == s[b]);
        }
    }
}

/// After removing the one entry that holds a key, no entry holds it.
pub proof fn lemma_unique_remove_frees_key<T, K>(s: Seq<T>, key: spec_fn(T) -> K, i: int)
    requires
        unique_keys(s, key),
        0 <= i < s.len(),
    ensures
        !has_key(s.remove(i), key, key(s[i])),
{
    let sr = s.remove(i);
    assert forall|j: int| 0 <= j < sr.len() implies key(#[trigger] sr[j]) != key(s[i]) by {
        if j < i {
            assert(sr[j] == s[j]);
        } else {
            assert(sr[j] == s[j + 1]);
        }
    }
}

} // verus!
