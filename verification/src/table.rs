//! Semantics of a table keyed by a primary key.
//!
//! Both persisted tables — coins keyed by identifier, settings keyed by
//! name — behave the same way: `create` upserts by key, `find` walks the
//! rows for the first (under uniqueness: the only) match, `update` rewrites
//! a matching row in place, `delete` drops it. These transitions are defined
//! here once, over a sequence of rows and a key projection, together with
//! the lemmas that characterize them.

use vstd::prelude::*;

verus! {

/// First row whose key is `k`, if any.
pub open spec fn find_by<T, K>(s: Seq<T>, key: spec_fn(T) -> K, k: K) -> Option<T>
    decreases s.len(),
{
    if s.len() == 0 {
        None
    } else if key(s[0]) == k {
        Some(s[0])
    } else {
        find_by(s.drop_first(), key, k)
    }
}

/// All rows whose key is `k`, in order.
pub open spec fn filter_by<T, K>(s: Seq<T>, key: spec_fn(T) -> K, k: K) -> Seq<T>
    decreases s.len(),
{
    if s.len() == 0 {
        s
    } else if key(s[0]) == k {
        seq![s[0]] + filter_by(s.drop_first(), key, k)
    } else {
        filter_by(s.drop_first(), key, k)
    }
}

/// Upsert: replace the first row sharing `x`'s key, or append `x`.
pub open spec fn upsert_by<T, K>(s: Seq<T>, key: spec_fn(T) -> K, x: T) -> Seq<T>
    decreases s.len(),
{
    if s.len() == 0 {
        seq![x]
    } else if key(s[0]) == key(x) {
        seq![x] + s.drop_first()
    } else {
        seq![s[0]] + upsert_by(s.drop_first(), key, x)
    }
}

/// Update: replace the first row sharing `x`'s key; no match, no change.
pub open spec fn update_by<T, K>(s: Seq<T>, key: spec_fn(T) -> K, x: T) -> Seq<T>
    decreases s.len(),
{
    if s.len() == 0 {
        s
    } else if key(s[0]) == key(x) {
        seq![x] + s.drop_first()
    } else {
        seq![s[0]] + update_by(s.drop_first(), key, x)
    }
}

/// Delete: drop the first row whose key is `k`; no match, no change.
pub open spec fn remove_by<T, K>(s: Seq<T>, key: spec_fn(T) -> K, k: K) -> Seq<T>
    decreases s.len(),
{
    if s.len() == 0 {
        s
    } else if key(s[0]) == k {
        s.drop_first()
    } else {
        seq![s[0]] + remove_by(s.drop_first(), key, k)
    }
}

/// No two rows share a key — the primary-key constraint.
pub open spec fn unique_keys<T, K>(s: Seq<T>, key: spec_fn(T) -> K) -> bool {
    forall|i: int, j: int|
        #![trigger key(s[i]), key(s[j])]
        0 <= i < j < s.len() ==> key(s[i]) != key(s[j])
}

/// `find_by` returns the row at the first matching position.
pub proof fn lemma_find_match_at<T, K>(s: Seq<T>, key: spec_fn(T) -> K, i: int)
    requires
        0 <= i < s.len(),
        forall|j: int| 0 <= j < i ==> key(#[trigger] s[j]) != key(s[i]),
    ensures
        find_by(s, key, key(s[i])) == Some(s[i]),
    decreases s.len(),
{
    if i > 0 {
        assert(forall|j: int| 0 <= j < i - 1
            ==> s.drop_first()[j] == #[trigger] s[j + 1]);
        lemma_find_match_at(s.drop_first(), key, i - 1);
    }
}

/// `find_by` returns nothing when no row matches.
pub proof fn lemma_find_no_match<T, K>(s: Seq<T>, key: spec_fn(T) -> K, k: K)
    requires
        forall|j: int| 0 <= j < s.len() ==> key(#[trigger] s[j]) != k,
    ensures
        find_by(s, key, k) is None,
    decreases s.len(),
{
    if s.len() > 0 {
        assert(forall|j: int| 0 <= j < s.len() - 1
            ==> s.drop_first()[j] == #[trigger] s[j + 1]);
        lemma_find_no_match(s.drop_first(), key, k);
    }
}

/// Upserting over the first matching position rewrites exactly that row.
pub proof fn lemma_upsert_match_at<T, K>(s: Seq<T>, key: spec_fn(T) -> K, x: T, i: int)
    requires
        0 <= i < s.len(),
        key(s[i]) == key(x),
        forall|j: int| 0 <= j < i ==> key(#[trigger] s[j]) != key(x),
    ensures
        upsert_by(s, key, x) == s.update(i, x),
    decreases s.len(),
{
    if i == 0 {
        assert(upsert_by(s, key, x) =~= s.update(0, x));
    } else {
        assert(forall|j: int| 0 <= j < i - 1
            ==> s.drop_first()[j] == #[trigger] s[j + 1]);
        lemma_upsert_match_at(s.drop_first(), key, x, i - 1);
        assert(seq![s[0]] + s.drop_first().update(i - 1, x) =~= s.update(i, x));
    }
}

/// Upserting a row whose key is new appends it.
pub proof fn lemma_upsert_no_match<T, K>(s: Seq<T>, key: spec_fn(T) -> K, x: T)
    requires
        forall|j: int| 0 <= j < s.len() ==> key(#[trigger] s[j]) != key(x),
    ensures
        upsert_by(s, key, x) == s.push(x),
    decreases s.len(),
{
    if s.len() == 0 {
        assert(upsert_by(s, key, x) =~= s.push(x));
    } else {
        assert(forall|j: int| 0 <= j < s.len() - 1
            ==> s.drop_first()[j] == #[trigger] s[j + 1]);
        lemma_upsert_no_match(s.drop_first(), key, x);
        assert(seq![s[0]] + s.drop_first().push(x) =~= s.push(x));
    }
}

/// Updating over the first matching position rewrites exactly that row.
pub proof fn lemma_update_match_at<T, K>(s: Seq<T>, key: spec_fn(T) -> K, x: T, i: int)
    requires
        0 <= i < s.len(),
        key(s[i]) == key(x),
        forall|j: int| 0 <= j < i ==> key(#[trigger] s[j]) != key(x),
    ensures
        update_by(s, key, x) == s.update(i, x),
    decreases s.len(),
{
    if i == 0 {
        assert(update_by(s, key, x) =~= s.update(0, x));
    } else {
        assert(forall|j: int| 0 <= j < i - 1
            ==> s.drop_first()[j] == #[trigger] s[j + 1]);
        lemma_update_match_at(s.drop_first(), key, x, i - 1);
        assert(seq![s[0]] + s.drop_first().update(i - 1, x) =~= s.update(i, x));
    }
}

/// Updating a row whose key is absent changes nothing.
pub proof fn lemma_update_no_match<T, K>(s: Seq<T>, key: spec_fn(T) -> K, x: T)
    requires
        forall|j: int| 0 <= j < s.len() ==> key(#[trigger] s[j]) != key(x),
    ensures
        update_by(s, key, x) == s,
    decreases s.len(),
{
    if s.len() > 0 {
        assert(forall|j: int| 0 <= j < s.len() - 1
            ==> s.drop_first()[j] == #[trigger] s[j + 1]);
        lemma_update_no_match(s.drop_first(), key, x);
        assert(seq![s[0]] + s.drop_first() =~= s);
    }
}

/// Deleting by the key of the first matching position removes that row.
pub proof fn lemma_remove_match_at<T, K>(s: Seq<T>, key: spec_fn(T) -> K, i: int)
    requires
        0 <= i < s.len(),
        forall|j: int| 0 <= j < i ==> key(#[trigger] s[j]) != key(s[i]),
    ensures
        remove_by(s, key, key(s[i])) == s.remove(i),
    decreases s.len(),
{
    if i == 0 {
        assert(remove_by(s, key, key(s[0])) =~= s.remove(0));
    } else {
        assert(forall|j: int| 0 <= j < i - 1
            ==> s.drop_first()[j] == #[trigger] s[j + 1]);
        lemma_remove_match_at(s.drop_first(), key, i - 1);
        assert(remove_by(s, key, key(s[i])) == seq![s[0]] + s.drop_first().remove(i - 1));
        assert(seq![s[0]] + s.drop_first().remove(i - 1) =~= s.remove(i));
    }
}

/// Deleting by an absent key changes nothing.
pub proof fn lemma_remove_no_match<T, K>(s: Seq<T>, key: spec_fn(T) -> K, k: K)
    requires
        forall|j: int| 0 <= j < s.len() ==> key(#[trigger] s[j]) != k,
    ensures
        remove_by(s, key, k) == s,
    decreases s.len(),
{
    if s.len() > 0 {
        assert(forall|j: int| 0 <= j < s.len() - 1
            ==> s.drop_first()[j] == #[trigger] s[j + 1]);
        lemma_remove_no_match(s.drop_first(), key, k);
        assert(seq![s[0]] + s.drop_first() =~= s);
    }
}

/// After an upsert, looking the row up by its key finds exactly it.
pub proof fn lemma_find_after_upsert_same<T, K>(s: Seq<T>, key: spec_fn(T) -> K, x: T)
    ensures
        find_by(upsert_by(s, key, x), key, key(x)) == Some(x),
    decreases s.len(),
{
    if s.len() == 0 {
    } else if key(s[0]) == key(x) {
        assert((seq![x] + s.drop_first())[0] == x);
    } else {
        lemma_find_after_upsert_same(s.drop_first(), key, x);
        assert((seq![s[0]] + upsert_by(s.drop_first(), key, x)).drop_first()
            =~= upsert_by(s.drop_first(), key, x));
    }
}

/// An upsert leaves every other key's lookup unchanged.
pub proof fn lemma_find_after_upsert_other<T, K>(s: Seq<T>, key: spec_fn(T) -> K, x: T, k: K)
    requires
        k != key(x),
    ensures
        find_by(upsert_by(s, key, x), key, k) == find_by(s, key, k),
    decreases s.len(),
{
    if s.len() == 0 {
        let t = upsert_by(s, key, x);
        assert(t[0] == x);
        assert(find_by(t.drop_first(), key, k) is None);
    } else if key(s[0]) == key(x) {
        let t = seq![x] + s.drop_first();
        assert(t[0] == x);
        assert(t.drop_first() =~= s.drop_first());
    } else {
        lemma_find_after_upsert_other(s.drop_first(), key, x, k);
        let t = seq![s[0]] + upsert_by(s.drop_first(), key, x);
        assert(t[0] == s[0]);
        assert(t.drop_first() =~= upsert_by(s.drop_first(), key, x));
    }
}

/// Upserting twice under one key keeps the second row: last write wins,
/// and the earlier values are gone entirely.
pub proof fn lemma_upsert_last_write_wins<T, K>(s: Seq<T>, key: spec_fn(T) -> K, x: T, y: T)
    requires
        key(x) == key(y),
    ensures
        upsert_by(upsert_by(s, key, x), key, y) == upsert_by(s, key, y),
    decreases s.len(),
{
    if s.len() == 0 {
        assert(upsert_by(upsert_by(s, key, x), key, y) =~= upsert_by(s, key, y));
    } else if key(s[0]) == key(x) {
        assert((seq![x] + s.drop_first())[0] == x);
        assert((seq![x] + s.drop_first()).drop_first() =~= s.drop_first());
        assert(upsert_by(upsert_by(s, key, x), key, y) =~= upsert_by(s, key, y));
    } else {
        let t = seq![s[0]] + upsert_by(s.drop_first(), key, x);
        assert(t[0] == s[0]);
        assert(t.drop_first() =~= upsert_by(s.drop_first(), key, x));
        lemma_upsert_last_write_wins(s.drop_first(), key, x, y);
        assert(upsert_by(upsert_by(s, key, x), key, y) =~= upsert_by(s, key, y));
    }
}

/// An upsert grows the table only when the key was absent: re-creating a
/// row never duplicates it.
pub proof fn lemma_upsert_len<T, K>(s: Seq<T>, key: spec_fn(T) -> K, x: T)
    ensures
        upsert_by(s, key, x).len() == if find_by(s, key, key(x)) is Some {
            s.len()
        } else {
            s.len() + 1
        },
    decreases s.len(),
{
    if s.len() > 0 && key(s[0]) != key(x) {
        lemma_upsert_len(s.drop_first(), key, x);
    }
}

/// An upsert preserves the primary-key constraint.
pub proof fn lemma_upsert_preserves_unique<T, K>(s: Seq<T>, key: spec_fn(T) -> K, x: T)
    requires
        unique_keys(s, key),
    ensures
        unique_keys(upsert_by(s, key, x), key),
    decreases s.len(),
{
    if s.len() == 0 {
    } else if key(s[0]) == key(x) {
        let t = seq![x] + s.drop_first();
        assert forall|i: int, j: int| 0 <= i < j < t.len()
            implies key(t[i]) != key(t[j]) by {
            assert(key(s[i]) != key(s[j]));
        }
    } else {
        assert(forall|i: int, j: int|
            #![trigger key(s.drop_first()[i]), key(s.drop_first()[j])]
            0 <= i < j < s.drop_first().len()
                ==> key(s[i + 1]) != key(s[j + 1]));
        lemma_upsert_preserves_unique(s.drop_first(), key, x);
        let u = upsert_by(s.drop_first(), key, x);
        let t = seq![s[0]] + u;
        lemma_upsert_membership(s.drop_first(), key, x);
        assert forall|i: int, j: int| 0 <= i < j < t.len()
            implies key(t[i]) != key(t[j]) by {
            if i == 0 {
                assert(key(t[j]) == key(u[j - 1]));
            }
        }
    }
}

/// Every key present after an upsert was present before or is the new
/// row's key.
pub proof fn lemma_upsert_membership<T, K>(s: Seq<T>, key: spec_fn(T) -> K, x: T)
    ensures
        forall|i: int| 0 <= i < upsert_by(s, key, x).len()
            ==> key(#[trigger] upsert_by(s, key, x)[i]) == key(x)
                || exists|j: int| 0 <= j < s.len() && key(#[trigger] s[j])
                    == key(upsert_by(s, key, x)[i]),
    decreases s.len(),
{
    let t = upsert_by(s, key, x);
    if s.len() == 0 {
    } else if key(s[0]) == key(x) {
        assert forall|i: int| 0 <= i < t.len()
            implies key(t[i]) == key(x)
                || exists|j: int| 0 <= j < s.len() && key(#[trigger] s[j]) == key(t[i]) by {
            if i > 0 {
                assert(t[i] == s[i]);
            }
        }
    } else {
        lemma_upsert_membership(s.drop_first(), key, x);
        let u = upsert_by(s.drop_first(), key, x);
        assert forall|i: int| 0 <= i < t.len()
            implies key(t[i]) == key(x)
                || exists|j: int| 0 <= j < s.len() && key(#[trigger] s[j]) == key(t[i]) by {
            if i == 0 {
                assert(key(s[0]) == key(t[0]));
            } else {
                assert(t[i] == u[i - 1]);
                if key(u[i - 1]) != key(x) {
                    let j = choose|j: int| 0 <= j < s.drop_first().len()
                        && key(#[trigger] s.drop_first()[j]) == key(u[i - 1]);
                    assert(key(s[j + 1]) == key(t[i]));
                }
            }
        }
    }
}

/// Under the primary-key constraint, filtering by a key yields the found
/// row alone, or nothing: a by-key query can never return two rows.
pub proof fn lemma_filter_unique<T, K>(s: Seq<T>, key: spec_fn(T) -> K, k: K)
    requires
        unique_keys(s, key),
    ensures
        filter_by(s, key, k) == match find_by(s, key, k) {
            Some(x) => seq![x],
            None => Seq::<T>::empty(),
        },
    decreases s.len(),
{
    if s.len() == 0 {
        assert(filter_by(s, key, k) =~= Seq::<T>::empty());
    } else {
        assert(forall|i: int, j: int|
            #![trigger key(s.drop_first()[i]), key(s.drop_first()[j])]
            0 <= i < j < s.drop_first().len()
                ==> key(s[i + 1]) != key(s[j + 1]));
        lemma_filter_unique(s.drop_first(), key, k);
        if key(s[0]) == k {
            assert(forall|j: int| 0 <= j < s.drop_first().len()
                ==> key(#[trigger] s.drop_first()[j]) != k);
            lemma_find_no_match(s.drop_first(), key, k);
            assert(filter_by(s, key, k) =~= seq![s[0]]);
        }
    }
}

/// `filter_by` distributes over appending one row.
pub proof fn lemma_filter_push<T, K>(s: Seq<T>, key: spec_fn(T) -> K, k: K, x: T)
    ensures
        filter_by(s.push(x), key, k) == if key(x) == k {
            filter_by(s, key, k).push(x)
        } else {
            filter_by(s, key, k)
        },
    decreases s.len(),
{
    if s.len() == 0 {
        assert(s.push(x)[0] == x);
        assert(s.push(x).drop_first() =~= s);
        if key(x) == k {
            assert(filter_by(s.push(x), key, k) =~= filter_by(s, key, k).push(x));
        } else {
            assert(filter_by(s.push(x), key, k) =~= filter_by(s, key, k));
        }
    } else {
        assert(s.push(x).drop_first() =~= s.drop_first().push(x));
        lemma_filter_push(s.drop_first(), key, k, x);
        if key(x) == k {
            if key(s[0]) == k {
                assert(filter_by(s.push(x), key, k)
                    =~= filter_by(s, key, k).push(x));
            }
        }
    }
}

/// After deleting a key, looking it up finds nothing (the table satisfies
/// the primary-key constraint, so the one matching row is gone).
pub proof fn lemma_find_after_remove_same<T, K>(s: Seq<T>, key: spec_fn(T) -> K, k: K)
    requires
        unique_keys(s, key),
    ensures
        find_by(remove_by(s, key, k), key, k) is None,
    decreases s.len(),
{
    if s.len() == 0 {
    } else if key(s[0]) == k {
        assert(forall|j: int| 0 <= j < s.drop_first().len()
            ==> key(#[trigger] s.drop_first()[j]) != k);
        lemma_find_no_match(s.drop_first(), key, k);
    } else {
        assert(forall|i: int, j: int|
            #![trigger key(s.drop_first()[i]), key(s.drop_first()[j])]
            0 <= i < j < s.drop_first().len()
                ==> key(s[i + 1]) != key(s[j + 1]));
        lemma_find_after_remove_same(s.drop_first(), key, k);
        let t = seq![s[0]] + remove_by(s.drop_first(), key, k);
        assert(t.drop_first() =~= remove_by(s.drop_first(), key, k));
    }
}

/// Deleting one key leaves every other key's lookup unchanged.
pub proof fn lemma_find_after_remove_other<T, K>(s: Seq<T>, key: spec_fn(T) -> K, k: K, k2: K)
    requires
        k2 != k,
    ensures
        find_by(remove_by(s, key, k), key, k2) == find_by(s, key, k2),
    decreases s.len(),
{
    if s.len() == 0 {
    } else if key(s[0]) == k {
    } else {
        lemma_find_after_remove_other(s.drop_first(), key, k, k2);
        let t = seq![s[0]] + remove_by(s.drop_first(), key, k);
        assert(t[0] == s[0]);
        assert(t.drop_first() =~= remove_by(s.drop_first(), key, k));
    }
}

/// Update preserves the primary-key constraint.
pub proof fn lemma_update_preserves_unique<T, K>(s: Seq<T>, key: spec_fn(T) -> K, x: T)
    requires
        unique_keys(s, key),
    ensures
        unique_keys(update_by(s, key, x), key),
{
    if exists|i: int| 0 <= i < s.len() && key(#[trigger] s[i]) == key(x) {
        lemma_first_match_exists(s, key, key(x));
        let i0 = choose|i0: int| 0 <= i0 < s.len() && key(#[trigger] s[i0]) == key(x)
            && forall|j: int| 0 <= j < i0 ==> key(#[trigger] s[j]) != key(x);
        lemma_update_match_at(s, key, x, i0);
        let t = s.update(i0, x);
        assert forall|a: int, b: int| 0 <= a < b < t.len()
            implies key(t[a]) != key(t[b]) by {
            if a != i0 && b != i0 {
                assert(key(s[a]) != key(s[b]));
            } else if a == i0 {
                assert(key(s[a]) == key(x) && key(s[b]) != key(s[a]));
            } else {
                assert(key(s[b]) == key(x) && key(s[a]) != key(s[b]));
            }
        }
    } else {
        assert(forall|j: int| 0 <= j < s.len() ==> key(#[trigger] s[j]) != key(x));
        lemma_update_no_match(s, key, x);
    }
}

/// Delete preserves the primary-key constraint.
pub proof fn lemma_remove_preserves_unique<T, K>(s: Seq<T>, key: spec_fn(T) -> K, k: K)
    requires
        unique_keys(s, key),
    ensures
        unique_keys(remove_by(s, key, k), key),
{
    if exists|i: int| 0 <= i < s.len() && key(#[trigger] s[i]) == k {
        lemma_first_match_exists(s, key, k);
        let i0 = choose|i0: int| 0 <= i0 < s.len() && key(#[trigger] s[i0]) == k
            && forall|j: int| 0 <= j < i0 ==> key(#[trigger] s[j]) != k;
        lemma_remove_match_at(s, key, i0);
        let t = s.remove(i0);
        assert forall|a: int, b: int| 0 <= a < b < t.len()
            implies key(t[a]) != key(t[b]) by {
            let a0 = if a < i0 { a } else { a + 1 };
            let b0 = if b < i0 { b } else { b + 1 };
            assert(t[a] == s[a0] && t[b] == s[b0]);
            assert(key(s[a0]) != key(s[b0]));
        }
    } else {
        assert(forall|j: int| 0 <= j < s.len() ==> key(#[trigger] s[j]) != k);
        lemma_remove_no_match(s, key, k);
    }
}

/// If some row matches a key, there is a first row that matches it.
pub proof fn lemma_first_match_exists<T, K>(s: Seq<T>, key: spec_fn(T) -> K, k: K)
    requires
        exists|i: int| 0 <= i < s.len() && key(#[trigger] s[i]) == k,
    ensures
        exists|i0: int| 0 <= i0 < s.len() && key(#[trigger] s[i0]) == k
            && forall|j: int| 0 <= j < i0 ==> key(#[trigger] s[j]) != k,
    decreases s.len(),
{
    if key(s[0]) == k {
        assert(0 <= 0 < s.len() && key(s[0]) == k
            && forall|j: int| 0 <= j < 0 ==> key(#[trigger] s[j]) != k);
    } else {
        let w = choose|i: int| 0 <= i < s.len() && key(#[trigger] s[i]) == k;
        assert(s.drop_first()[w - 1] == s[w]);
        lemma_first_match_exists(s.drop_first(), key, k);
        let i0 = choose|i0: int| 0 <= i0 < s.drop_first().len()
            && key(#[trigger] s.drop_first()[i0]) == k
            && forall|j: int| 0 <= j < i0 ==> key(#[trigger] s.drop_first()[j]) != k;
        assert(key(s[i0 + 1]) == k);
        assert forall|j: int| 0 <= j < i0 + 1 implies key(#[trigger] s[j]) != k by {
            if j > 0 {
                assert(s.drop_first()[j - 1] == s[j]);
            }
        }
    }
}

} // verus!
