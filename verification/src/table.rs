//! A table with at most one entry for each key, kept in the order in which
//! the entries were made.

use crate::key::RecordKey;
use vstd::prelude::*;

verus! {

/// A key of a table: a value that stands for an identity, and a test that
/// tells whether two keys stand for the same.
pub trait TableKey: Sized {
    /// What a key is told apart by.
    type Id;

    /// The identity that the key stands for.
    spec fn id(&self) -> Self::Id;

    /// Whether two keys stand for the same identity.
    fn same(&self, other: &Self) -> (same: bool)
        ensures
            same == (self.id() == other.id()),
    ;
}

impl TableKey for RecordKey {
    type Id = Seq<u8>;

    open spec fn id(&self) -> Seq<u8> {
        self@
    }

    fn same(&self, other: &Self) -> (same: bool) {
        crate::key::same_bytes(self.as_bytes(), other.as_bytes())
    }
}

impl TableKey for (u64, u64) {
    type Id = (u64, u64);

    open spec fn id(&self) -> (u64, u64) {
        *self
    }

    fn same(&self, other: &Self) -> (same: bool) {
        self.0 == other.0 && self.1 == other.1
    }
}

/// The keys of a list of entries, in the same order.
pub open spec fn keys_of<K: TableKey, V>(entries: Seq<(K, V)>) -> Seq<K::Id> {
    Seq::new(entries.len(), |i: int| entries[i].0.id())
}

/// The mapping that a list of entries stands for: each key that occurs, with
/// the value of an entry that holds it.
pub open spec fn table_of<K: TableKey, V>(entries: Seq<(K, V)>) -> Map<K::Id, V> {
    Map::new(
        |key: K::Id| keys_of(entries).contains(key),
        |key: K::Id| entries[keys_of(entries).index_of(key)].1,
    )
}

/// In a list with distinct keys, each entry is what the mapping holds for its key.
pub proof fn lemma_table_entry<K: TableKey, V>(entries: Seq<(K, V)>, i: int)
    requires
        keys_of(entries).no_duplicates(),
        0 <= i < entries.len(),
    ensures
        table_of(entries).contains_key(entries[i].0.id()),
        table_of(entries)[entries[i].0.id()] == entries[i].1,
{
    let keys = keys_of(entries);
    let key = entries[i].0.id();
    assert(keys[i] == key);
    let j = keys.index_of(key);
    assert(0 <= j < keys.len() && keys[j] == key);
    assert(i == j);
}

/// Adding an entry under a key that does not occur yet inserts it in the mapping.
pub proof fn lemma_table_push<K: TableKey, V>(entries: Seq<(K, V)>, key: K, value: V)
    requires
        keys_of(entries).no_duplicates(),
        !keys_of(entries).contains(key.id()),
    ensures
        keys_of(entries.push((key, value))).no_duplicates(),
        table_of(entries.push((key, value))) == table_of(entries).insert(key.id(), value),
{
    let longer = entries.push((key, value));
    let keys = keys_of(entries);
    assert(keys_of(longer) =~= keys.push(key.id()));
    assert forall|i: int, j: int|
        0 <= i < keys_of(longer).len() && 0 <= j < keys_of(longer).len() && i != j implies keys_of(
        longer,
    )[i] != keys_of(longer)[j] by {
        if i < keys.len() {
            assert(keys[i] == keys_of(longer)[i]);
        }
        if j < keys.len() {
            assert(keys[j] == keys_of(longer)[j]);
        }
    }
    assert forall|k: K::Id| #[trigger]
        table_of(longer).contains_key(k) == table_of(entries).insert(key.id(), value).contains_key(
            k,
        ) by {
        if keys.contains(k) {
            let i = keys.index_of(k);
            assert(keys_of(longer)[i] == k);
        }
        if keys_of(longer).contains(k) && k != key.id() {
            let i = keys_of(longer).index_of(k);
            assert(keys[i] == k);
        }
        if k == key.id() {
            assert(keys_of(longer)[entries.len() as int] == k);
        }
    }
    assert forall|k: K::Id| #[trigger] table_of(longer).contains_key(k) implies table_of(
        longer,
    )[k] == table_of(entries).insert(key.id(), value)[k] by {
        let i = keys_of(longer).index_of(k);
        lemma_table_entry(longer, i);
        if i < entries.len() {
            assert(keys[i] == k);
            lemma_table_entry(entries, i);
        }
    }
    assert(table_of(longer) =~= table_of(entries).insert(key.id(), value));
}

/// Taking an entry out of a list with distinct keys removes its key from the mapping.
pub proof fn lemma_table_remove<K: TableKey, V>(entries: Seq<(K, V)>, i: int)
    requires
        keys_of(entries).no_duplicates(),
        0 <= i < entries.len(),
    ensures
        keys_of(entries.remove(i)).no_duplicates(),
        table_of(entries.remove(i)) == table_of(entries).remove(entries[i].0.id()),
{
    let shorter = entries.remove(i);
    let keys = keys_of(entries);
    let key = entries[i].0.id();
    assert(keys_of(shorter) =~= keys.remove(i));
    assert forall|a: int, b: int|
        0 <= a < keys_of(shorter).len() && 0 <= b < keys_of(shorter).len() && a != b implies keys_of(
        shorter,
    )[a] != keys_of(shorter)[b] by {
        let a0 = if a < i {
            a
        } else {
            a + 1
        };
        let b0 = if b < i {
            b
        } else {
            b + 1
        };
        assert(keys_of(shorter)[a] == keys[a0]);
        assert(keys_of(shorter)[b] == keys[b0]);
    }
    assert forall|k: K::Id| #[trigger]
        table_of(shorter).contains_key(k) == table_of(entries).remove(key).contains_key(k) by {
        if keys_of(shorter).contains(k) {
            let a = keys_of(shorter).index_of(k);
            let a0 = if a < i {
                a
            } else {
                a + 1
            };
            assert(keys[a0] == k);
            assert(keys[i] == key);
        }
        if keys.contains(k) && k != key {
            let a0 = keys.index_of(k);
            assert(keys[i] == key);
            let a = if a0 < i {
                a0
            } else {
                a0 - 1
            };
            assert(keys_of(shorter)[a] == k);
        }
    }
    assert forall|k: K::Id| #[trigger] table_of(shorter).contains_key(k) implies table_of(
        shorter,
    )[k] == table_of(entries).remove(key)[k] by {
        let a = keys_of(shorter).index_of(k);
        lemma_table_entry(shorter, a);
        let a0 = if a < i {
            a
        } else {
            a + 1
        };
        assert(keys[a0] == k);
        lemma_table_entry(entries, a0);
    }
    assert(table_of(shorter) =~= table_of(entries).remove(key));
}

/// A table from keys to values.
#[derive(Debug)]
pub struct Table<K: TableKey, V> {
    entries: Vec<(K, V)>,
}

/// A table from content keys to values.
pub type KeyTable<V> = Table<RecordKey, V>;

impl<K: TableKey, V> View for Table<K, V> {
    type V = Map<K::Id, V>;

    closed spec fn view(&self) -> Map<K::Id, V> {
        table_of(self.entries@)
    }
}

impl<K: TableKey, V> Table<K, V> {
    /// The keys of the table, in the order of its entries.
    pub closed spec fn ids(&self) -> Seq<K::Id> {
        keys_of(self.entries@)
    }

    /// The table holds a value for exactly the keys of its entries.
    pub proof fn lemma_ids(&self)
        ensures
            forall|id: K::Id| self@.contains_key(id) <==> self.ids().contains(id),
    {
    }

    /// The number of entries, which is the number of keys.
    pub fn len(&self) -> (len: usize)
        ensures
            len == self.ids().len(),
            self.ids().no_duplicates(),
            self@.dom().finite(),
            len == self@.len(),
    {
        proof {
            use_type_invariant(self);
            self.lemma_ids();
            assert(self@.dom() =~= self.ids().to_set());
            self.ids().unique_seq_to_set();
            vstd::seq_lib::seq_to_set_is_finite(self.ids());
        }
        self.entries.len()
    }

    /// The key of the entry at a position below `len()`.
    pub fn key_at(&self, index: usize) -> (key: &K)
        requires
            index < self.ids().len(),
        ensures
            key.id() == self.ids()[index as int],
            self@.contains_key(key.id()),
    {
        proof {
            use_type_invariant(self);
            lemma_table_entry(self.entries@, index as int);
        }
        &self.entries[index].0
    }

    #[verifier::type_invariant]
    closed spec fn distinct_keys(&self) -> bool {
        keys_of(self.entries@).no_duplicates()
    }

    /// The empty table.
    pub fn new() -> (table: Self)
        ensures
            table@ == Map::<K::Id, V>::empty(),
    {
        let table = Table { entries: Vec::new() };
        assert(keys_of(table.entries@) =~= Seq::<K::Id>::empty());
        assert(table@ =~= Map::<K::Id, V>::empty());
        table
    }

    fn position(&self, key: &K) -> (found: Option<usize>)
        ensures
            keys_of(self.entries@).no_duplicates(),
            match found {
                Some(index) => index < self.entries@.len() && self.entries@[index as int].0.id()
                    == key.id(),
                None => !keys_of(self.entries@).contains(key.id()),
            },
    {
        proof {
            use_type_invariant(self);
        }
        let mut i: usize = 0;
        while i < self.entries.len()
            invariant
                i <= self.entries@.len(),
                keys_of(self.entries@).no_duplicates(),
                forall|j: int| 0 <= j < i ==> keys_of(self.entries@)[j] != key.id(),
            decreases self.entries.len() - i,
        {
            if self.entries[i].0.same(key) {
                return Some(i);
            }
            i += 1;
        }
        None
    }

    /// Whether the table has an entry for a key.
    pub fn contains_key(&self, key: &K) -> (found: bool)
        ensures
            found == self@.contains_key(key.id()),
    {
        match self.position(key) {
            Some(index) => {
                proof {
                    lemma_table_entry(self.entries@, index as int);
                }
                true
            },
            None => false,
        }
    }

    /// The value that the table holds for a key, if it has one.
    pub fn get(&self, key: &K) -> (found: Option<&V>)
        ensures
            match found {
                Some(value) => self@.contains_key(key.id()) && *value == self@[key.id()],
                None => !self@.contains_key(key.id()),
            },
    {
        match self.position(key) {
            Some(index) => {
                proof {
                    lemma_table_entry(self.entries@, index as int);
                }
                Some(&self.entries[index].1)
            },
            None => None,
        }
    }

    /// Takes the entry for a key out of the table and returns its value, if
    /// there was one.
    pub fn remove(&mut self, key: &K) -> (removed: Option<V>)
        ensures
            final(self)@ == old(self)@.remove(key.id()),
            match removed {
                Some(value) => old(self)@.contains_key(key.id()) && value == old(self)@[key.id()],
                None => !old(self)@.contains_key(key.id()),
            },
    {
        match self.position(key) {
            Some(index) => {
                let ghost before = self.entries@;
                proof {
                    lemma_table_entry(before, index as int);
                    lemma_table_remove(before, index as int);
                }
                let mut entries: Vec<(K, V)> = Vec::new();
                assert(keys_of(entries@) =~= Seq::<K::Id>::empty());
                core::mem::swap(&mut self.entries, &mut entries);
                let entry = entries.remove(index);
                core::mem::swap(&mut self.entries, &mut entries);
                Some(entry.1)
            },
            None => {
                assert(self@.remove(key.id()) =~= self@);
                None
            },
        }
    }

    /// Takes the entry at a position below `len()` out of the table.
    pub fn remove_at(&mut self, index: usize) -> (entry: (K, V))
        requires
            index < old(self).ids().len(),
        ensures
            entry.0.id() == old(self).ids()[index as int],
            old(self)@.contains_key(entry.0.id()),
            entry.1 == old(self)@[entry.0.id()],
            final(self)@ == old(self)@.remove(entry.0.id()),
            final(self).ids() == old(self).ids().remove(index as int),
            final(self).ids().no_duplicates(),
    {
        proof {
            use_type_invariant(&*self);
            lemma_table_entry(self.entries@, index as int);
            lemma_table_remove(self.entries@, index as int);
        }
        let ghost before = self.entries@;
        let mut entries: Vec<(K, V)> = Vec::new();
        assert(keys_of(entries@) =~= Seq::<K::Id>::empty());
        core::mem::swap(&mut self.entries, &mut entries);
        let entry = entries.remove(index);
        assert(keys_of(entries@) =~= keys_of(before).remove(index as int));
        core::mem::swap(&mut self.entries, &mut entries);
        entry
    }

    /// Sets the value for a key and returns the value that it replaces, if
    /// there was one.
    pub fn insert(&mut self, key: K, value: V) -> (replaced: Option<V>)
        ensures
            final(self)@ == old(self)@.insert(key.id(), value),
            match replaced {
                Some(previous) => old(self)@.contains_key(key.id()) && previous == old(self)@[key.id()],
                None => !old(self)@.contains_key(key.id()),
            },
    {
        let ghost before = self@;
        let replaced = self.remove(&key);
        proof {
            use_type_invariant(&*self);
            assert(!self@.contains_key(key.id()));
            if keys_of(self.entries@).contains(key.id()) {
                let i = keys_of(self.entries@).index_of(key.id());
                lemma_table_entry(self.entries@, i);
            }
            lemma_table_push(self.entries@, key, value);
            assert(before.remove(key.id()).insert(key.id(), value) =~= before.insert(key.id(), value));
        }
        let mut entries: Vec<(K, V)> = Vec::new();
        assert(keys_of(entries@) =~= Seq::<K::Id>::empty());
        core::mem::swap(&mut self.entries, &mut entries);
        entries.push((key, value));
        core::mem::swap(&mut self.entries, &mut entries);
        replaced
    }
}

/// A mapping without the keys that begin with `first`.
pub open spec fn without_prefix<V>(table: Map<(u64, u64), V>, first: u64) -> Map<(u64, u64), V> {
    Map::new(
        |key: (u64, u64)| table.contains_key(key) && key.0 != first,
        |key: (u64, u64)| table[key],
    )
}

/// The second halves of the keys of a list of entries, in the same order.
pub open spec fn seconds_of<V>(entries: Seq<(u64, V)>) -> Seq<u64> {
    Seq::new(entries.len(), |i: int| entries[i].0)
}

impl<V> Table<(u64, u64), V> {
    /// Whether the table has an entry whose key begins with `first`.
    pub fn contains_prefix(&self, first: u64) -> (found: bool)
        ensures
            found == exists|second: u64| self@.contains_key((first, second)),
    {
        let mut i: usize = 0;
        let len = self.len();
        proof {
            self.lemma_ids();
        }
        while i < len
            invariant
                i <= len,
                len == self.ids().len(),
                forall|j: int| 0 <= j < i ==> self.ids()[j].0 != first,
            decreases len - i,
        {
            if self.key_at(i).0 == first {
                assert(self@.contains_key((first, self.ids()[i as int].1)));
                return true;
            }
            i += 1;
        }
        assert forall|second: u64| !self@.contains_key((first, second)) by {
            if self.ids().contains((first, second)) {
                let j = self.ids().index_of((first, second));
                assert(self.ids()[j].0 == first);
            }
        }
        false
    }

    /// Takes every entry whose key begins with `first` out of the table, and
    /// returns the second half of the key and the value of each, once.
    pub fn drain_prefix(&mut self, first: u64) -> (drained: Vec<(u64, V)>)
        ensures
            final(self)@ == without_prefix(old(self)@, first),
            seconds_of(drained@).no_duplicates(),
            forall|second: u64|
                seconds_of(drained@).contains(second) <==> old(self)@.contains_key(
                    (first, second),
                ),
            forall|i: int|
                0 <= i < drained@.len() ==> old(self)@.contains_key((first, drained@[i].0)) && (
                #[trigger] drained@[i]).1 == old(self)@[(first, drained@[i].0)],
    {
        let mut drained: Vec<(u64, V)> = Vec::new();
        let mut i: usize = 0;
        assert(seconds_of(drained@) =~= Seq::<u64>::empty());
        assert(self@ =~= Map::new(
            |key: (u64, u64)|
                old(self)@.contains_key(key) && !(key.0 == first && seconds_of(
                    drained@,
                ).contains(key.1)),
            |key: (u64, u64)| old(self)@[key],
        ));
        while i < self.len()
            invariant
                i <= self.ids().len(),
                forall|j: int| 0 <= j < i ==> self.ids()[j].0 != first,
                seconds_of(drained@).no_duplicates(),
                forall|second: u64|
                    seconds_of(drained@).contains(second) ==> old(self)@.contains_key(
                        (first, second),
                    ),
                forall|k: int|
                    0 <= k < drained@.len() ==> old(self)@.contains_key((first, drained@[k].0))
                        && (#[trigger] drained@[k]).1 == old(self)@[(first, drained@[k].0)],
                self@ == Map::new(
                    |key: (u64, u64)|
                        old(self)@.contains_key(key) && !(key.0 == first && seconds_of(
                            drained@,
                        ).contains(key.1)),
                    |key: (u64, u64)| old(self)@[key],
                ),
            decreases self.ids().len() - i,
        {
            if self.key_at(i).0 == first {
                let ghost table = self@;
                let ghost taken = seconds_of(drained@);
                let ghost list = drained@;
                let entry = self.remove_at(i);
                let second = (entry.0).1;
                assert(table.contains_key((first, second)));
                assert(old(self)@.contains_key((first, second)));
                assert(entry.1 == old(self)@[(first, second)]);
                assert(!taken.contains(second));
                drained.push((second, entry.1));
                assert(seconds_of(drained@) =~= taken.push(second));
                assert forall|other: u64| seconds_of(drained@).contains(other) implies old(
                    self,
                )@.contains_key((first, other)) by {
                    let k = seconds_of(drained@).index_of(other);
                    if k < taken.len() {
                        assert(taken[k] == other);
                    } else {
                        assert(other == second);
                    }
                }
                assert forall|a: int, b: int|
                    0 <= a < seconds_of(drained@).len() && 0 <= b < seconds_of(drained@).len()
                        && a != b implies seconds_of(drained@)[a] != seconds_of(drained@)[b] by {
                    if a < taken.len() {
                        assert(taken[a] == seconds_of(drained@)[a]);
                    }
                    if b < taken.len() {
                        assert(taken[b] == seconds_of(drained@)[b]);
                    }
                }
                assert forall|k: int| 0 <= k < drained@.len() implies old(self)@.contains_key(
                    (first, drained@[k].0),
                ) && (#[trigger] drained@[k]).1 == old(self)@[(first, drained@[k].0)] by {
                    if k < list.len() {
                        assert(drained@[k] == list[k]);
                    }
                }
                assert forall|key: (u64, u64)|
                    (key.0 == first && seconds_of(drained@).contains(key.1)) <==> (key == (
                        first,
                        second,
                    ) || (key.0 == first && taken.contains(key.1))) by {
                    if key.0 == first && seconds_of(drained@).contains(key.1) {
                        let k = seconds_of(drained@).index_of(key.1);
                        if k < taken.len() {
                            assert(taken[k] == key.1);
                        }
                    }
                    if key.0 == first && taken.contains(key.1) {
                        let k = taken.index_of(key.1);
                        assert(seconds_of(drained@)[k] == key.1);
                    }
                    if key == (first, second) {
                        assert(seconds_of(drained@)[taken.len() as int] == second);
                    }
                }
                assert(self@ =~= Map::new(
                    |key: (u64, u64)|
                        old(self)@.contains_key(key) && !(key.0 == first && seconds_of(
                            drained@,
                        ).contains(key.1)),
                    |key: (u64, u64)| old(self)@[key],
                ));
            } else {
                i += 1;
            }
        }
        proof {
            self.lemma_ids();
            assert forall|key: (u64, u64)| self@.contains_key(key) implies key.0 != first by {
                let j = self.ids().index_of(key);
                assert(self.ids()[j] == key);
            }
            assert forall|second: u64| old(self)@.contains_key((first, second)) implies seconds_of(
                drained@,
            ).contains(second) by {
                if !seconds_of(drained@).contains(second) {
                    assert(self@.contains_key((first, second)));
                }
            }
            assert(self@ =~= without_prefix(old(self)@, first));
        }
        drained
    }
}

} // verus!
