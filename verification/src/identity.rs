//! Sets of rows in which no two rows share an identity, as a hash set keyed
//! by a row's identifying fields keeps them: inserting a row whose identity
//! is already present leaves the set as it was.

use vstd::prelude::*;

verus! {

/// A row type whose values are told apart by some of their fields.
pub trait RowIdentity: Sized {
    type Key;

    /// The identifying fields of a row.
    spec fn identity(&self) -> Self::Key;

    fn same_identity(&self, other: &Self) -> (r: bool)
        ensures
            r == (self.identity() == other.identity());
}

/// Whether some item of `s` has the key `k`.
pub open spec fn has_key<A, K>(s: Seq<A>, key: spec_fn(A) -> K, k: K) -> bool {
    exists|j: int| 0 <= j < s.len() && #[trigger] key(s[j]) == k
}

/// `s` after inserting `a`: unchanged when an item with the same key is
/// already there, else with `a` added at the end.
pub open spec fn insert_by<A, K>(s: Seq<A>, key: spec_fn(A) -> K, a: A) -> Seq<A> {
    if has_key(s, key, key(a)) {
        s
    } else {
        s.push(a)
    }
}

/// `s` after inserting the items of `items` one after the other.
pub open spec fn insert_all_by<A, K>(s: Seq<A>, key: spec_fn(A) -> K, items: Seq<A>) -> Seq<A>
    decreases items.len(),
{
    if items.len() == 0 {
        s
    } else {
        insert_by(insert_all_by(s, key, items.drop_last()), key, items.last())
    }
}

/// The items of `s` inserted one after the other into an empty set: the
/// first item with each key, in the order of first occurrence.
pub open spec fn dedup_by<A, K>(s: Seq<A>, key: spec_fn(A) -> K) -> Seq<A> {
    insert_all_by(Seq::empty(), key, s)
}

/// The identity of a row, as a function.
pub open spec fn row_key<T: RowIdentity>() -> spec_fn(T) -> T::Key {
    |r: T| r.identity()
}

/// The rows of `rows` collected into a set.
pub open spec fn distinct_rows<T: RowIdentity>(rows: Seq<T>) -> Seq<T> {
    dedup_by(rows, row_key::<T>())
}

/// `set` after inserting `items` one after the other.
pub open spec fn insert_rows<T: RowIdentity>(set: Seq<T>, items: Seq<T>) -> Seq<T> {
    insert_all_by(set, row_key::<T>(), items)
}

/// No two items of `s` share a key.
pub open spec fn keys_distinct<A, K>(s: Seq<A>, key: spec_fn(A) -> K) -> bool {
    forall|i: int, j: int|
        0 <= i < s.len() && 0 <= j < s.len() && i != j ==> #[trigger] key(s[i]) != #[trigger] key(
            s[j],
        )
}

/// Inserts `item` unless a row with its identity is already present; tells
/// whether it was inserted.
pub fn insert_distinct<T: RowIdentity>(set: &mut Vec<T>, item: T) -> (inserted: bool)
    ensures
        final(set)@ == insert_by(old(set)@, row_key::<T>(), item),
        inserted == !has_key(old(set)@, row_key::<T>(), item.identity()),
{
    let ghost key = row_key::<T>();
    let n = set.len();
    let mut i: usize = 0;
    while i < n
        invariant
            n == set@.len(),
            set@ == old(set)@,
            i <= n,
            forall|j: int| 0 <= j < i ==> #[trigger] set@[j].identity() != item.identity(),
        decreases n - i,
    {
        if set[i].same_identity(&item) {
            assert(row_key::<T>()(set@[i as int]) == row_key::<T>()(item));
            return false;
        }
        i = i + 1;
    }
    assert(!has_key(set@, key, key(item))) by {
        if has_key(set@, key, key(item)) {
            let j = choose|j: int| 0 <= j < set@.len() && #[trigger] key(set@[j]) == key(item);
            assert(set@[j].identity() != item.identity());
        }
    }
    set.push(item);
    true
}

/// Inserts the rows of `items` one after the other.
pub fn extend_distinct<T: RowIdentity>(set: &mut Vec<T>, items: Vec<T>)
    ensures
        final(set)@ == insert_rows(old(set)@, items@),
{
    let ghost all = items@;
    assert(all.len() == items.len());
    let mut rest = items;
    let mut k: usize = 0;
    while rest.len() > 0
        invariant
            k <= all.len(),
            all.len() <= usize::MAX,
            rest@ == all.skip(k as int),
            set@ == insert_rows(old(set)@, all.take(k as int)),
        decreases rest.len(),
    {
        let item = rest.remove(0);
        assert(all.take(k + 1).drop_last() =~= all.take(k as int));
        assert(all.take(k + 1).last() == item);
        insert_distinct(set, item);
        k = k + 1;
        assert(rest@ =~= all.skip(k as int));
    }
    assert(all.take(k as int) =~= all);
}

/// Inserting into a set keeps it free of repeated keys and leaves the
/// item's key in it.
pub proof fn lemma_insert_keeps_distinct<A, K>(s: Seq<A>, key: spec_fn(A) -> K, a: A)
    requires
        keys_distinct(s, key),
    ensures
        keys_distinct(insert_by(s, key, a), key),
        has_key(insert_by(s, key, a), key, key(a)),
{
    if !has_key(s, key, key(a)) {
        let s2 = s.push(a);
        assert forall|i: int, j: int|
            0 <= i < s2.len() && 0 <= j < s2.len() && i != j implies #[trigger] key(s2[i])
            != #[trigger] key(s2[j]) by {
            if i == s.len() {
                assert(s2[j] == s[j]);
                if key(s[j]) == key(a) {
                    assert(has_key(s, key, key(a)));
                }
            } else if j == s.len() {
                assert(s2[i] == s[i]);
                if key(s[i]) == key(a) {
                    assert(has_key(s, key, key(a)));
                }
            } else {
                assert(s2[i] == s[i] && s2[j] == s[j]);
            }
        }
        assert(key(s2[s.len() as int]) == key(a));
    } else {
        let j = choose|j: int| 0 <= j < s.len() && #[trigger] key(s[j]) == key(a);
        assert(key(s[j]) == key(a));
    }
}

/// Inserting items into a set keeps the items already there, keeps one item
/// for each key among the inserted ones, adds nothing else, and never holds
/// two items with the same key.
pub proof fn law_insert_all_by<A, K>(s: Seq<A>, key: spec_fn(A) -> K, items: Seq<A>)
    requires
        keys_distinct(s, key),
    ensures
        keys_distinct(insert_all_by(s, key, items), key),
        insert_all_by(s, key, items).len() >= s.len(),
        insert_all_by(s, key, items).subrange(0, s.len() as int) == s,
        forall|i: int| 0 <= i < items.len() ==> has_key(insert_all_by(s, key, items), key, #[trigger] key(items[i])),
        forall|k: int|
            0 <= k < insert_all_by(s, key, items).len() ==> s.contains(
                #[trigger] insert_all_by(s, key, items)[k],
            ) || items.contains(insert_all_by(s, key, items)[k]),
    decreases items.len(),
{
    if items.len() > 0 {
        let prev = items.drop_last();
        let p = insert_all_by(s, key, prev);
        law_insert_all_by(s, key, prev);
        lemma_insert_keeps_distinct(p, key, items.last());
        let d = insert_all_by(s, key, items);
        assert(d.subrange(0, s.len() as int) =~= s) by {
            assert(p.subrange(0, s.len() as int) == s);
            if d != p {
                assert(d == p.push(items.last()));
                assert forall|i: int| 0 <= i < s.len() implies d[i] == s[i] by {
                    assert(d[i] == p[i]);
                    assert(p.subrange(0, s.len() as int)[i] == p[i]);
                }
            }
        }
        assert forall|i: int| 0 <= i < items.len() implies has_key(d, key, #[trigger] key(items[i])) by {
            if i < prev.len() {
                assert(prev[i] == items[i]);
                let j = choose|j: int| 0 <= j < p.len() && #[trigger] key(p[j]) == key(prev[i]);
                assert(d[j] == p[j]);
            } else {
                assert(items[i] == items.last());
            }
        }
        assert forall|k: int| 0 <= k < d.len() implies s.contains(#[trigger] d[k]) || items.contains(d[k]) by {
            if k < p.len() {
                assert(d[k] == p[k]);
                if !s.contains(p[k]) {
                    let m = choose|m: int| 0 <= m < prev.len() && prev[m] == p[k];
                    assert(items[m] == prev[m]);
                }
            } else {
                assert(d[k] == items.last());
                assert(items[items.len() - 1] == items.last());
            }
        }
    }
}

/// Collecting rows into a set keeps one row for each identity among them,
/// keeps only rows that were collected, and holds no two rows with the same
/// identity.
pub proof fn law_distinct_rows<T: RowIdentity>(rows: Seq<T>)
    ensures
        keys_distinct(distinct_rows(rows), row_key::<T>()),
        forall|i: int| 0 <= i < rows.len() ==> has_key(distinct_rows(rows), row_key::<T>(), #[trigger] rows[i].identity()),
        forall|k: int| 0 <= k < distinct_rows(rows).len() ==> rows.contains(#[trigger] distinct_rows(rows)[k]),
{
    let key = row_key::<T>();
    law_insert_all_by(Seq::<T>::empty(), key, rows);
    assert forall|i: int| 0 <= i < rows.len() implies has_key(distinct_rows(rows), key, #[trigger] rows[i].identity()) by {
        assert(key(rows[i]) == rows[i].identity());
    }
}

/// Mapping the items of a set through `f` gives the set of the mapped
/// items, when `f` carries each key over.
pub proof fn lemma_insert_all_by_map<A, B, K>(
    s: Seq<A>,
    items: Seq<A>,
    f: spec_fn(A) -> B,
    ka: spec_fn(A) -> K,
    kb: spec_fn(B) -> K,
)
    requires
        forall|a: A| #[trigger] kb(f(a)) == ka(a),
    ensures
        insert_all_by(s, ka, items).map_values(f) == insert_all_by(s.map_values(f), kb, items.map_values(f)),
    decreases items.len(),
{
    if items.len() == 0 {
        assert(items.map_values(f).len() == 0);
    } else {
        let prev = items.drop_last();
        assert(items.map_values(f).drop_last() =~= prev.map_values(f));
        assert(items.map_values(f).last() == f(items.last()));
        lemma_insert_all_by_map(s, prev, f, ka, kb);
        let p = insert_all_by(s, ka, prev);
        let pm = p.map_values(f);
        let a = items.last();
        assert(has_key(p, ka, ka(a)) == has_key(pm, kb, kb(f(a)))) by {
            if has_key(p, ka, ka(a)) {
                let j = choose|j: int| 0 <= j < p.len() && #[trigger] ka(p[j]) == ka(a);
                assert(kb(f(p[j])) == ka(p[j]));
                assert(pm[j] == f(p[j]));
            }
            if has_key(pm, kb, kb(f(a))) {
                let j = choose|j: int| 0 <= j < pm.len() && #[trigger] kb(pm[j]) == kb(f(a));
                assert(pm[j] == f(p[j]));
                assert(kb(f(p[j])) == ka(p[j]));
            }
        }
        if !has_key(p, ka, ka(a)) {
            assert(p.push(a).map_values(f) =~= pm.push(f(a)));
        }
    }
}


/// Keeping the first item of each key, for a field `f` that tells items
/// apart exactly as the key does: each value of `f` among the items is
/// carried by exactly one kept item, and every kept item is one of the items.
pub proof fn lemma_dedup_by_field<A, K, X>(items: Seq<A>, key: spec_fn(A) -> K, f: spec_fn(A) -> X)
    requires
        forall|a: A, b: A| (key(a) == key(b)) == (#[trigger] f(a) == #[trigger] f(b)),
    ensures
        forall|i: int| 0 <= i < items.len() ==> exists|k: int|
            0 <= k < dedup_by(items, key).len() && #[trigger] f(dedup_by(items, key)[k]) == f(#[trigger] items[i]),
        forall|k: int, m: int|
            0 <= k < dedup_by(items, key).len() && 0 <= m < dedup_by(items, key).len() && k != m
                ==> f(#[trigger] dedup_by(items, key)[k]) != f(#[trigger] dedup_by(items, key)[m]),
        forall|k: int| 0 <= k < dedup_by(items, key).len() ==> items.contains(#[trigger] dedup_by(items, key)[k]),
{
    let d = dedup_by(items, key);
    law_insert_all_by(Seq::<A>::empty(), key, items);
    assert forall|i: int| 0 <= i < items.len() implies exists|k: int|
        0 <= k < d.len() && #[trigger] f(d[k]) == f(#[trigger] items[i]) by {
        assert(has_key(d, key, key(items[i])));
        let k = choose|k: int| 0 <= k < d.len() && #[trigger] key(d[k]) == key(items[i]);
        assert(f(d[k]) == f(items[i]));
    }
    assert forall|k: int, m: int| 0 <= k < d.len() && 0 <= m < d.len() && k != m
        implies f(#[trigger] d[k]) != f(#[trigger] d[m]) by {
        assert(key(d[k]) != key(d[m]));
    }
    assert forall|k: int| 0 <= k < d.len() implies items.contains(#[trigger] d[k]) by {
        assert(!Seq::<A>::empty().contains(d[k]));
    }
}

/// Collecting rows into a set, for a field `f` that tells rows apart exactly
/// as their identity does: each value of `f` among the rows is carried by
/// exactly one collected row, and every collected row is one of the rows.
pub proof fn lemma_distinct_rows_by<T: RowIdentity, X>(rows: Seq<T>, f: spec_fn(T) -> X)
    requires
        forall|a: T, b: T| (a.identity() == b.identity()) == (#[trigger] f(a) == #[trigger] f(b)),
    ensures
        forall|i: int| 0 <= i < rows.len() ==> exists|k: int|
            0 <= k < distinct_rows(rows).len() && #[trigger] f(distinct_rows(rows)[k]) == f(#[trigger] rows[i]),
        forall|k: int, m: int|
            0 <= k < distinct_rows(rows).len() && 0 <= m < distinct_rows(rows).len() && k != m
                ==> f(#[trigger] distinct_rows(rows)[k]) != f(#[trigger] distinct_rows(rows)[m]),
        forall|k: int| 0 <= k < distinct_rows(rows).len() ==> rows.contains(#[trigger] distinct_rows(rows)[k]),
{
    let key = row_key::<T>();
    assert forall|a: T, b: T| (key(a) == key(b)) == (#[trigger] f(a) == #[trigger] f(b)) by {
        assert(key(a) == a.identity() && key(b) == b.identity());
    }
    lemma_dedup_by_field(rows, key, f);
    let d = distinct_rows(rows);
    assert(d == dedup_by(rows, key));
    assert forall|i: int| 0 <= i < rows.len() implies exists|k: int|
        0 <= k < d.len() && #[trigger] f(d[k]) == f(#[trigger] rows[i]) by {
        let k = choose|k: int| 0 <= k < d.len() && #[trigger] f(dedup_by(rows, key)[k]) == f(rows[i]);
        assert(f(d[k]) == f(rows[i]));
    }
}

} // verus!
