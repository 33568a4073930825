//! A small keyed table: the in-memory form of a group of ledger entries.

use vstd::prelude::*;

verus! {

/// A key whose equality can be decided.
pub trait TableKey: Copy {
    /// Whether the two keys are equal.
    fn same(&self, other: &Self) -> (r: bool)
        ensures
            r == (*self == *other),
    ;
}

impl TableKey for u64 {
    fn same(&self, other: &Self) -> (r: bool) {
        *self == *other
    }
}

/// A finite map from `K` to `V`.
#[derive(Debug)]
#[verifier::reject_recursive_types(K)]
pub struct Table<K, V> {
    rows: Vec<(K, V)>,
}

/// What the rows say of `key`: the value in the first row that holds it.
spec fn lookup<K, V>(rows: Seq<(K, V)>, key: K) -> Option<V>
    decreases rows.len(),
{
    if rows.len() == 0 {
        None
    } else if rows.first().0 == key {
        Some(rows.first().1)
    } else {
        lookup(rows.drop_first(), key)
    }
}

impl<K, V> View for Table<K, V> {
    type V = Map<K, V>;

    closed spec fn view(&self) -> Map<K, V> {
        Map::new(|key: K| lookup(self.rows@, key) is Some, |key: K| lookup(self.rows@, key)->0)
    }
}

/// A key found at row `i`, and in no row before it, is looked up there.
proof fn lemma_found_at<K, V>(rows: Seq<(K, V)>, key: K, i: int)
    requires
        0 <= i < rows.len(),
        rows[i].0 == key,
        forall|j: int| 0 <= j < i ==> rows[j].0 != key,
    ensures
        lookup(rows, key) == Some(rows[i].1),
    decreases rows.len(),
{
    if i > 0 {
        assert(rows[0].0 != key);
        assert forall|j: int| 0 <= j < i - 1 implies rows.drop_first()[j].0 != key by {
            assert(rows[j + 1].0 != key);
        }
        lemma_found_at(rows.drop_first(), key, i - 1);
    }
}

/// A key that no row holds is not found.
proof fn lemma_not_found<K, V>(rows: Seq<(K, V)>, key: K)
    requires
        forall|j: int| 0 <= j < rows.len() ==> rows[j].0 != key,
    ensures
        lookup(rows, key) is None,
    decreases rows.len(),
{
    if rows.len() > 0 {
        assert(rows[0].0 != key);
        assert forall|j: int| 0 <= j < rows.drop_first().len() implies rows.drop_first()[j].0
            != key by {
            assert(rows[j + 1].0 != key);
        }
        lemma_not_found(rows.drop_first(), key);
    }
}

/// Replacing a row under its own key does not touch what the rows say of another key.
proof fn lemma_update_other<K, V>(rows: Seq<(K, V)>, i: int, value: V, key: K)
    requires
        0 <= i < rows.len(),
        rows[i].0 != key,
    ensures
        lookup(rows.update(i, (rows[i].0, value)), key) == lookup(rows, key),
    decreases rows.len(),
{
    let updated = rows.update(i, (rows[i].0, value));
    if i > 0 {
        assert(updated.drop_first() =~= rows.drop_first().update(
            i - 1,
            (rows.drop_first()[i - 1].0, value),
        ));
        lemma_update_other(rows.drop_first(), i - 1, value, key);
    } else {
        assert(updated.drop_first() =~= rows.drop_first());
    }
}

/// A row added at the end is seen exactly by a key that was not found before.
proof fn lemma_push<K, V>(rows: Seq<(K, V)>, row: (K, V), key: K)
    ensures
        lookup(rows.push(row), key) == (if lookup(rows, key) is None && row.0 == key {
            Some(row.1)
        } else {
            lookup(rows, key)
        }),
    decreases rows.len(),
{
    let pushed = rows.push(row);
    if rows.len() > 0 {
        assert(pushed.drop_first() =~= rows.drop_first().push(row));
        lemma_push(rows.drop_first(), row, key);
    } else {
        assert(pushed.drop_first() =~= Seq::<(K, V)>::empty());
        assert(lookup(pushed.drop_first(), key) is None);
    }
}

impl<K: TableKey, V: Copy> Table<K, V> {
    /// A table without entries.
    pub fn new() -> (r: Self)
        ensures
            r@ == Map::<K, V>::empty(),
    {
        let r = Table { rows: Vec::new() };
        assert(r@ =~= Map::<K, V>::empty());
        r
    }

    /// The value stored under `key`.
    pub fn get(&self, key: K) -> (r: Option<V>)
        ensures
            r == (if self@.contains_key(key) {
                Some(self@[key])
            } else {
                None
            }),
    {
        let mut i: usize = 0;
        while i < self.rows.len()
            invariant
                i <= self.rows@.len(),
                forall|j: int| 0 <= j < i ==> (#[trigger] self.rows@[j]).0 != key,
            decreases self.rows@.len() - i,
        {
            if self.rows[i].0.same(&key) {
                proof {
                    lemma_found_at(self.rows@, key, i as int);
                }
                return Some(self.rows[i].1);
            }
            i += 1;
        }
        proof {
            lemma_not_found(self.rows@, key);
        }
        None
    }

    /// Stores `value` under `key`, in place of what was stored there.
    pub fn insert(&mut self, key: K, value: V)
        ensures
            final(self)@ == old(self)@.insert(key, value),
    {
        let ghost before = self.rows@;
        let mut i: usize = 0;
        while i < self.rows.len()
            invariant
                self.rows@ == before,
                before == old(self).rows@,
                i <= self.rows@.len(),
                forall|j: int| 0 <= j < i ==> (#[trigger] before[j]).0 != key,
            decreases self.rows@.len() - i,
        {
            if self.rows[i].0.same(&key) {
                self.rows[i] = (key, value);
                proof {
                    lemma_found_at(self.rows@, key, i as int);
                    assert forall|other: K| other != key implies lookup(self.rows@, other)
                        == lookup(before, other) by {
                        lemma_update_other(before, i as int, value, other);
                    }
                    assert(self@ =~= old(self)@.insert(key, value));
                }
                return;
            }
            i += 1;
        }
        self.rows.push((key, value));
        proof {
            lemma_not_found(before, key);
            assert forall|other: K| #[trigger] lookup(self.rows@, other) == (if other == key {
                Some(value)
            } else {
                lookup(before, other)
            }) by {
                lemma_push(before, (key, value), other);
            }
            assert(self@ =~= old(self)@.insert(key, value));
        }
    }
}

} // verus!
