//! A table of records, each under a key of its own.

use vstd::prelude::*;
use crate::hash::Hash256;

verus! {

/// A key that a table can look records up by.
pub trait Lookup: View + Sized {
    /// Whether two keys stand for the same thing.
    fn same(&self, other: &Self) -> (r: bool)
        ensures
            r == (self@ == other@),
    ;
}

impl Lookup for String {
    fn same(&self, other: &Self) -> (r: bool) {
        *self == *other
    }
}

impl Lookup for Hash256 {
    fn same(&self, other: &Self) -> (r: bool) {
        Hash256::same(self, other)
    }
}

/// Whether some row of `rows` is under `key`.
pub open spec fn has_row<A, B>(rows: Seq<(A, B)>, key: A) -> bool {
    exists|i: int| 0 <= i < rows.len() && (#[trigger] rows[i]).0 == key
}

/// The place of a row under `key`.
pub open spec fn row_index<A, B>(rows: Seq<(A, B)>, key: A) -> int {
    choose|i: int| 0 <= i < rows.len() && (#[trigger] rows[i]).0 == key
}

/// Whether no two rows are under the same key.
pub open spec fn distinct_rows<A, B>(rows: Seq<(A, B)>) -> bool {
    forall|i: int, j: int|
        0 <= i < j < rows.len() ==> (#[trigger] rows[i]).0 != (#[trigger] rows[j]).0
}

/// The map from each key of `rows` to what is recorded under it.
pub open spec fn rows_map<A, B>(rows: Seq<(A, B)>) -> Map<A, B> {
    Map::new(|key: A| has_row(rows, key), |key: A| rows[row_index(rows, key)].1)
}

/// Among distinct rows, each is the one found under its key.
pub proof fn lemma_row_found<A, B>(rows: Seq<(A, B)>, i: int)
    requires
        distinct_rows(rows),
        0 <= i < rows.len(),
    ensures
        has_row(rows, rows[i].0),
        row_index(rows, rows[i].0) == i,
        rows_map(rows).contains_key(rows[i].0),
        rows_map(rows)[rows[i].0] == rows[i].1,
{
    let key = rows[i].0;
    assert(has_row(rows, key));
    let j = row_index(rows, key);
    assert(0 <= j < rows.len() && rows[j].0 == key);
    if j < i {
        assert(rows[j].0 != rows[i].0);
    } else if i < j {
        assert(rows[i].0 != rows[j].0);
    }
}

/// A row under a new key adds that key to the map.
pub proof fn lemma_rows_push<A, B>(rows: Seq<(A, B)>, key: A, value: B)
    requires
        distinct_rows(rows),
        !has_row(rows, key),
    ensures
        distinct_rows(rows.push((key, value))),
        rows_map(rows.push((key, value))) == rows_map(rows).insert(key, value),
{
    let after = rows.push((key, value));
    assert forall|i: int, j: int| 0 <= i < j < after.len() implies (#[trigger] after[i]).0 != (
    #[trigger] after[j]).0 by {
        assert(after[i] == rows[i]);
        if j < rows.len() {
            assert(after[j] == rows[j]);
        }
    }
    assert forall|k: A| has_row(after, k) <==> (k == key || has_row(rows, k)) by {
        if has_row(after, k) {
            let i = row_index(after, k);
            if i < rows.len() {
                assert(rows[i] == after[i]);
            }
        }
        if k == key {
            assert(after[rows.len() as int].0 == key);
        }
        if has_row(rows, k) {
            let i = row_index(rows, k);
            assert(after[i] == rows[i]);
        }
    }
    assert forall|k: A| has_row(after, k) implies rows_map(after)[k] == rows_map(rows).insert(
        key,
        value,
    )[k] by {
        if k == key {
            lemma_row_found(after, rows.len() as int);
        } else {
            let i = row_index(rows, k);
            assert(after[i] == rows[i]);
            lemma_row_found(after, i);
            lemma_row_found(rows, i);
        }
    }
    assert(rows_map(after) =~= rows_map(rows).insert(key, value));
}

/// A new record in place of an old one changes what is under that key.
pub proof fn lemma_rows_update<A, B>(rows: Seq<(A, B)>, i: int, value: B)
    requires
        distinct_rows(rows),
        0 <= i < rows.len(),
    ensures
        distinct_rows(rows.update(i, (rows[i].0, value))),
        rows_map(rows.update(i, (rows[i].0, value))) == rows_map(rows).insert(rows[i].0, value),
{
    let key = rows[i].0;
    let after = rows.update(i, (key, value));
    assert forall|a: int, b: int| 0 <= a < b < after.len() implies (#[trigger] after[a]).0 != (
    #[trigger] after[b]).0 by {
        assert(after[a].0 == rows[a].0);
        assert(after[b].0 == rows[b].0);
    }
    assert forall|k: A| has_row(after, k) <==> has_row(rows, k) by {
        if has_row(after, k) {
            let j = row_index(after, k);
            assert(rows[j].0 == after[j].0);
        }
        if has_row(rows, k) {
            let j = row_index(rows, k);
            assert(after[j].0 == rows[j].0);
        }
    }
    lemma_row_found(rows, i);
    assert forall|k: A| has_row(after, k) implies rows_map(after)[k] == rows_map(rows).insert(
        key,
        value,
    )[k] by {
        if k == key {
            lemma_row_found(after, i);
        } else {
            let j = row_index(rows, k);
            assert(after[j] == rows[j]);
            lemma_row_found(after, j);
            lemma_row_found(rows, j);
        }
    }
    assert(rows_map(after) =~= rows_map(rows).insert(key, value));
}

/// A row taken out takes its key out of the map.
pub proof fn lemma_rows_remove<A, B>(rows: Seq<(A, B)>, i: int)
    requires
        distinct_rows(rows),
        0 <= i < rows.len(),
    ensures
        distinct_rows(rows.remove(i)),
        rows_map(rows.remove(i)) == rows_map(rows).remove(rows[i].0),
{
    let key = rows[i].0;
    let after = rows.remove(i);
    assert forall|a: int| 0 <= a < after.len() implies #[trigger] after[a] == rows[if a < i {
        a
    } else {
        a + 1
    }] by {}
    assert forall|a: int, b: int| 0 <= a < b < after.len() implies (#[trigger] after[a]).0 != (
    #[trigger] after[b]).0 by {
        let a0 = if a < i { a } else { a + 1 };
        let b0 = if b < i { b } else { b + 1 };
        assert(after[a] == rows[a0]);
        assert(after[b] == rows[b0]);
        assert(rows[a0].0 != rows[b0].0);
    }
    assert forall|k: A| has_row(after, k) <==> (k != key && has_row(rows, k)) by {
        if has_row(after, k) {
            let j = row_index(after, k);
            let j0 = if j < i { j } else { j + 1 };
            assert(after[j] == rows[j0]);
            if j0 < i {
                assert(rows[j0].0 != rows[i].0);
            } else {
                assert(rows[i].0 != rows[j0].0);
            }
        }
        if k != key && has_row(rows, k) {
            let j = row_index(rows, k);
            let j1 = if j < i { j } else { j - 1 };
            assert(after[j1] == rows[j]);
        }
    }
    assert forall|k: A| has_row(after, k) implies rows_map(after)[k] == rows_map(rows).remove(
        key,
    )[k] by {
        let j = row_index(after, k);
        let j0 = if j < i { j } else { j + 1 };
        assert(after[j] == rows[j0]);
        lemma_row_found(after, j);
        lemma_row_found(rows, j0);
    }
    assert(rows_map(after) =~= rows_map(rows).remove(key));
}

/// Distinct rows are as many as the keys of their map.
pub proof fn lemma_rows_count<A, B>(rows: Seq<(A, B)>)
    requires
        distinct_rows(rows),
    ensures
        rows_map(rows).dom().finite(),
        rows_map(rows).dom().len() == rows.len(),
    decreases rows.len(),
{
    if rows.len() == 0 {
        assert(rows_map(rows).dom() =~= Set::<A>::empty());
    } else {
        let front = rows.drop_last();
        let last = rows.last();
        assert forall|i: int, j: int| 0 <= i < j < front.len() implies (#[trigger] front[i]).0 != (
        #[trigger] front[j]).0 by {
            assert(front[i] == rows[i]);
            assert(front[j] == rows[j]);
        }
        if has_row(front, last.0) {
            let i = row_index(front, last.0);
            assert(front[i] == rows[i]);
            assert(rows[i].0 != rows[rows.len() - 1].0);
        }
        lemma_rows_count(front);
        lemma_rows_push(front, last.0, last.1);
        assert(front.push(last) =~= rows);
        assert(rows_map(rows).dom() =~= rows_map(front).dom().insert(last.0));
    }
}

/// The rows after a record is put under a key: in the place of the row
/// under that key, or behind all rows if there was none.
pub open spec fn put_row<A, B>(rows: Seq<(A, B)>, key: A, value: B) -> Seq<(A, B)> {
    if has_row(rows, key) {
        rows.update(row_index(rows, key), (key, value))
    } else {
        rows.push((key, value))
    }
}

/// Records under keys, at most one under each, in the order in which their
/// keys first came.
pub struct Table<K: Lookup, V: View> {
    entries: Vec<(K, V)>,
}

impl<K: Lookup, V: View> View for Table<K, V> {
    type V = Map<K::V, V::V>;

    open spec fn view(&self) -> Map<K::V, V::V> {
        rows_map(self.rows())
    }
}

impl<K: Lookup, V: View> Table<K, V> {
    /// No two records are under the same key.
    #[verifier::type_invariant]
    pub open spec fn one_record_per_key(self) -> bool {
        distinct_rows(self.rows())
    }

    /// The keys and records in their order.
    pub closed spec fn rows(&self) -> Seq<(K::V, V::V)> {
        Seq::new(self.entries.len() as nat, |i: int| (self.entries[i].0@, self.entries[i].1@))
    }

    /// A table without records.
    pub fn new() -> (table: Self)
        ensures
            table.rows() == Seq::<(K::V, V::V)>::empty(),
            table@ == Map::<K::V, V::V>::empty(),
    {
        let table = Table { entries: Vec::new() };
        table
    }

    /// The number of records.
    pub fn len(&self) -> (n: usize)
        ensures
            n == self.rows().len(),
            distinct_rows(self.rows()),
            self@.dom().finite(),
            self@.dom().len() == n,
    {
        proof {
            use_type_invariant(self);
            lemma_rows_count(self.rows());
        }
        self.entries.len()
    }

    /// The key of the record at `i`.
    pub(crate) fn key_at(&self, i: usize) -> (key: &K)
        requires
            i < self.rows().len(),
        ensures
            key@ == self.rows()[i as int].0,
    {
        &self.entries[i].0
    }

    /// The record at `i`.
    pub(crate) fn value_at(&self, i: usize) -> (value: &V)
        requires
            i < self.rows().len(),
        ensures
            value@ == self.rows()[i as int].1,
            self@.contains_key(self.rows()[i as int].0),
            self@[self.rows()[i as int].0] == value@,
    {
        proof {
            use_type_invariant(self);
        }
        &self.entries[i].1
    }

    fn find(&self, key: &K) -> (r: Option<usize>)
        ensures
            match r {
                Some(i) => i < self.rows().len() && self.rows()[i as int].0 == key@,
                None => !has_row(self.rows(), key@),
            },
    {
        let mut i: usize = 0;
        while i < self.entries.len()
            invariant
                i <= self.entries.len(),
                forall|j: int| 0 <= j < i ==> (#[trigger] self.rows()[j]).0 != key@,
            decreases self.entries.len() - i,
        {
            if self.entries[i].0.same(key) {
                return Some(i);
            }
            i = i + 1;
        }
        None
    }

    /// The record under `key`, if there is one.
    pub fn get(&self, key: &K) -> (r: Option<&V>)
        ensures
            match r {
                Some(value) => self@.contains_key(key@) && self@[key@] == value@,
                None => !self@.contains_key(key@),
            },
    {
        proof {
            use_type_invariant(self);
        }
        match self.find(key) {
            Some(i) => {
                Some(&self.entries[i].1)
            },
            None => None,
        }
    }

    /// Records `value` under `key`, in place of what was there.
    pub fn put(&mut self, key: K, value: V)
        ensures
            final(self)@ == old(self)@.insert(key@, value@),
            final(self).rows() == put_row(old(self).rows(), key@, value@),
    {
        proof {
            use_type_invariant(&*self);
        }
        let ghost before = self.rows();
        let found = self.find(&key);
        // The rows are taken out to be changed, and put back whole.
        let mut entries: Vec<(K, V)> = Vec::new();
        core::mem::swap(&mut self.entries, &mut entries);
        match found {
            Some(i) => {
                proof {
                    lemma_rows_update(before, i as int, value@);
                }
                entries.set(i, (key, value));
            },
            None => {
                proof {
                    lemma_rows_push(before, key@, value@);
                }
                entries.push((key, value));
            },
        }
        proof {
            let after = Seq::new(entries.len() as nat, |i: int| (entries[i].0@, entries[i].1@));
            match found {
                Some(i) => {
                    assert(after =~= before.update(i as int, (key@, value@)));
                },
                None => {
                    assert(after =~= before.push((key@, value@)));
                },
            }
        }
        self.entries = entries;
    }

    /// Takes out the record under `key`, if there is one.
    pub fn take(&mut self, key: &K) -> (r: Option<V>)
        ensures
            match r {
                Some(value) => old(self)@.contains_key(key@) && old(self)@[key@] == value@,
                None => !old(self)@.contains_key(key@),
            },
            final(self)@ == old(self)@.remove(key@),
    {
        proof {
            use_type_invariant(&*self);
        }
        let ghost before = self.rows();
        match self.find(key) {
            Some(i) => {
                proof {
                    lemma_rows_remove(before, i as int);
                }
                let mut entries: Vec<(K, V)> = Vec::new();
                core::mem::swap(&mut self.entries, &mut entries);
                let entry = entries.remove(i);
                proof {
                    let after = Seq::new(
                        entries.len() as nat,
                        |i: int| (entries[i].0@, entries[i].1@),
                    );
                    assert(after =~= before.remove(i as int));
                }
                self.entries = entries;
                Some(entry.1)
            },
            None => {
                None
            },
        }
    }
}

} // verus!
