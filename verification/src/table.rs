//! Small maps from addresses or words to values.

use crate::primitives::Address;
use crate::word::U256;
use vstd::prelude::*;

verus! {

/// What a [`Table`] can be keyed by.
pub trait Key: Sized + Copy + View {
    /// Whether two keys are the same.
    fn same_key(&self, other: &Self) -> (equal: bool)
        ensures
            equal == (self@ == other@),
    ;
}

impl Key for Address {
    fn same_key(&self, other: &Address) -> (equal: bool) {
        self.same(other)
    }
}

impl Key for U256 {
    fn same_key(&self, other: &U256) -> (equal: bool) {
        self.same(other)
    }
}

/// No two entries have the same key.
pub open spec fn keys_distinct<K: Key, T>(entries: Seq<(K, T)>) -> bool {
    forall|i: int, j: int|
        0 <= i < entries.len() && 0 <= j < entries.len() && i != j ==> (#[trigger] entries[i]).0@ != (
        #[trigger] entries[j]).0@
}

/// Whether some entry has the key.
pub open spec fn has_key<K: Key, T>(entries: Seq<(K, T)>, key: K::V) -> bool {
    exists|i: int| 0 <= i < entries.len() && (#[trigger] entries[i]).0@ == key
}

/// The position of an entry with the key.
pub open spec fn key_position<K: Key, T>(entries: Seq<(K, T)>, key: K::V) -> int {
    choose|i: int| 0 <= i < entries.len() && (#[trigger] entries[i]).0@ == key
}

/// The map that a list of entries stands for.
pub open spec fn map_of<K: Key, T: DeepView>(entries: Seq<(K, T)>) -> Map<K::V, T::V> {
    Map::new(
        |key: K::V| has_key(entries, key),
        |key: K::V| entries[key_position(entries, key)].1.deep_view(),
    )
}

/// A map with one entry for each key, in no particular order.
#[derive(Debug)]
#[verifier::reject_recursive_types(K)]
pub struct Table<K: Key, T> {
    entries: Vec<(K, T)>,
}

impl<K: Key, T> Table<K, T> {
    /// The entries of the table.
    pub closed spec fn entries(&self) -> Seq<(K, T)> {
        self.entries@
    }

    #[verifier::type_invariant]
    spec fn no_key_twice(&self) -> bool {
        keys_distinct(self.entries@)
    }
}

impl<K: Key, T: DeepView> DeepView for Table<K, T> {
    type V = Map<K::V, T::V>;

    open spec fn deep_view(&self) -> Map<K::V, T::V> {
        map_of(self.entries())
    }
}

/// Where the keys are distinct, the map holds each entry.
pub proof fn entry_is_in_map<K: Key, T: DeepView>(entries: Seq<(K, T)>, i: int)
    requires
        keys_distinct(entries),
        0 <= i < entries.len(),
    ensures
        map_of(entries).contains_key(entries[i].0@),
        map_of(entries)[entries[i].0@] == entries[i].1.deep_view(),
{
    assert(has_key(entries, entries[i].0@));
    assert(key_position(entries, entries[i].0@) == i);
}

/// Adding an entry under a new key adds it to the map.
pub proof fn push_inserts<K: Key, T: DeepView>(entries: Seq<(K, T)>, key: K, value: T)
    requires
        keys_distinct(entries),
        !map_of(entries).contains_key(key@),
    ensures
        keys_distinct(entries.push((key, value))),
        map_of(entries.push((key, value))) == map_of(entries).insert(key@, value.deep_view()),
{
    let more = entries.push((key, value));
    assert(forall|i: int| 0 <= i < entries.len() ==> has_key(entries, (#[trigger] entries[i]).0@));
    assert(keys_distinct(more));
    entry_is_in_map(more, entries.len() as int);
    assert forall|k: K::V| map_of(more).contains_key(k) <==> #[trigger] map_of(entries).insert(
        key@,
        value.deep_view(),
    ).contains_key(k) by {
        if has_key(entries, k) {
            let i = key_position(entries, k);
            assert(more[i].0@ == k);
        }
        if has_key(more, k) && k != key@ {
            let i = key_position(more, k);
            assert(entries[i].0@ == k);
        }
        if k == key@ {
            assert(more[entries.len() as int].0@ == k);
        }
    }
    assert forall|k: K::V| #[trigger] map_of(more).contains_key(k) && k != key@ implies map_of(more)[k]
        == map_of(entries)[k] by {
        let i = key_position(more, k);
        assert(entries[i].0@ == k);
        entry_is_in_map(entries, i);
        entry_is_in_map(more, i);
    }
    assert(map_of(more) =~= map_of(entries).insert(key@, value.deep_view()));
}

/// Where the keys are distinct, the map has as many keys as there are entries.
pub proof fn map_has_each_entry<K: Key, T: DeepView>(entries: Seq<(K, T)>)
    requires
        keys_distinct(entries),
    ensures
        map_of(entries).dom().finite(),
        map_of(entries).len() == entries.len(),
    decreases entries.len(),
{
    if entries.len() == 0 {
        assert(map_of(entries).dom() =~= Set::empty());
    } else {
        let earlier = entries.drop_last();
        let (key, value) = entries.last();
        assert forall|i: int, j: int| 0 <= i < earlier.len() && 0 <= j < earlier.len() && i != j implies (
        #[trigger] earlier[i]).0@ != (#[trigger] earlier[j]).0@ by {
            assert(earlier[i] == entries[i] && earlier[j] == entries[j]);
        }
        map_has_each_entry(earlier);
        if has_key(earlier, key@) {
            let i = key_position(earlier, key@);
            assert(entries[i].0@ == entries[entries.len() - 1].0@);
        }
        push_inserts(earlier, key, value);
        assert(earlier.push((key, value)) =~= entries);
    }
}

/// Taking an entry out takes its key out of the map.
proof fn swap_remove_removes<K: Key, T: DeepView>(entries: Seq<(K, T)>, at: int, rest: Seq<(K, T)>)
    requires
        keys_distinct(entries),
        0 <= at < entries.len(),
        rest == entries.update(at, entries.last()).drop_last(),
    ensures
        keys_distinct(rest),
        map_of(rest) == map_of(entries).remove(entries[at].0@),
{
    let key = entries[at].0@;
    assert forall|i: int, j: int| 0 <= i < rest.len() && 0 <= j < rest.len() && i != j implies (
    #[trigger] rest[i]).0@ != (#[trigger] rest[j]).0@ by {
        let from_i = if i == at { entries.len() - 1 } else { i };
        let from_j = if j == at { entries.len() - 1 } else { j };
        assert(rest[i] == entries[from_i] && rest[j] == entries[from_j]);
    }
    assert forall|k: K::V| map_of(rest).contains_key(k) <==> #[trigger] map_of(entries).remove(
        key,
    ).contains_key(k) by {
        if has_key(rest, k) {
            let i = key_position(rest, k);
            let from = if i == at { entries.len() - 1 } else { i };
            assert(entries[from].0@ == k && from != at);
        }
        if has_key(entries, k) && k != key {
            let i = key_position(entries, k);
            let to = if i == entries.len() - 1 { at } else { i };
            assert(rest[to].0@ == k);
        }
    }
    assert forall|k: K::V| #[trigger] map_of(rest).contains_key(k) implies map_of(rest)[k] == map_of(
        entries,
    )[k] by {
        let i = key_position(rest, k);
        let from = if i == at { entries.len() - 1 } else { i };
        assert(rest[i] == entries[from]);
        entry_is_in_map(entries, from);
        entry_is_in_map(rest, i);
    }
    assert(map_of(rest) =~= map_of(entries).remove(key));
}

impl<K: Key, T: DeepView> Table<K, T> {
    /// A table without entries.
    pub fn new() -> (table: Table<K, T>)
        ensures
            table.deep_view() == Map::<K::V, T::V>::empty(),
    {
        let table = Table { entries: Vec::new() };
        assert(table.deep_view() =~= Map::<K::V, T::V>::empty());
        table
    }

    /// Whether the table has no entries.
    pub fn is_empty(&self) -> (empty: bool)
        ensures
            empty == (self.deep_view() == Map::<K::V, T::V>::empty()),
    {
        let empty = self.entries.len() == 0;
        proof {
            if empty {
                assert(self.deep_view() =~= Map::<K::V, T::V>::empty());
            } else {
                assert(has_key(self.entries@, self.entries@[0].0@));
                assert(self.deep_view().contains_key(self.entries@[0].0@));
            }
        }
        empty
    }

    /// The number of keys.
    pub fn len(&self) -> (count: usize)
        ensures
            self.deep_view().dom().finite(),
            count == self.deep_view().len(),
    {
        proof {
            use_type_invariant(self);
            map_has_each_entry(self.entries@);
        }
        self.entries.len()
    }

    /// The position of the entry with the key.
    fn find(&self, key: &K) -> (position: Option<usize>)
        ensures
            match position {
                Some(i) => i < self.entries@.len() && self.entries@[i as int].0@ == key@,
                None => !has_key(self.entries@, key@),
            },
    {
        let mut i: usize = 0;
        while i < self.entries.len()
            invariant
                i <= self.entries@.len(),
                forall|j: int| 0 <= j < i ==> (#[trigger] self.entries@[j]).0@ != key@,
            decreases self.entries@.len() - i,
        {
            if self.entries[i].0.same_key(key) {
                return Some(i);
            }
            i = i + 1;
        }
        None
    }

    /// The value under a key.
    pub fn get(&self, key: &K) -> (value: Option<&T>)
        ensures
            match value {
                Some(v) => self.deep_view().contains_key(key@) && v.deep_view() == self.deep_view()[key@],
                None => !self.deep_view().contains_key(key@),
            },
    {
        proof {
            use_type_invariant(self);
        }
        match self.find(key) {
            Some(i) => {
                proof {
                    entry_is_in_map(self.entries@, i as int);
                }
                Some(&self.entries[i].1)
            },
            None => None,
        }
    }

    /// The table without a key, and the value that was under it.
    pub fn take(self, key: &K) -> (taken: (Table<K, T>, Option<T>))
        ensures
            taken.0.deep_view() == self.deep_view().remove(key@),
            match taken.1 {
                Some(v) => self.deep_view().contains_key(key@) && v.deep_view() == self.deep_view()[key@],
                None => !self.deep_view().contains_key(key@),
            },
    {
        proof {
            use_type_invariant(&self);
        }
        match self.find(key) {
            Some(i) => {
                proof {
                    entry_is_in_map(self.entries@, i as int);
                }
                let ghost before = self.entries@;
                let mut entries = self.entries;
                let (_, value) = entries.swap_remove(i);
                proof {
                    assert(entries@ =~= before.update(i as int, before.last()).drop_last());
                    swap_remove_removes(before, i as int, entries@);
                }
                (Table { entries }, Some(value))
            },
            None => {
                assert(self.deep_view().remove(key@) =~= self.deep_view());
                (self, None)
            },
        }
    }

    /// The table with a value under a key, in the place of any other that was there.
    pub fn insert(self, key: K, value: T) -> (table: Table<K, T>)
        ensures
            table.deep_view() == self.deep_view().insert(key@, value.deep_view()),
    {
        let (rest, _) = self.take(&key);
        proof {
            use_type_invariant(&rest);
            push_inserts(rest.entries@, key, value);
        }
        let mut entries = rest.entries;
        entries.push((key, value));
        let table = Table { entries };
        assert(table.deep_view() =~= self.deep_view().insert(key@, value.deep_view()));
        table
    }

    /// The entries of the table.
    pub fn as_entries(&self) -> (entries: &Vec<(K, T)>)
        ensures
            entries@ == self.entries(),
            keys_distinct(entries@),
            map_of(entries@) == self.deep_view(),
    {
        proof {
            use_type_invariant(self);
        }
        &self.entries
    }

    /// The entries of the table, moved out of it.
    pub fn into_entries(self) -> (entries: Vec<(K, T)>)
        ensures
            entries@ == self.entries(),
            keys_distinct(entries@),
            map_of(entries@) == self.deep_view(),
    {
        proof {
            use_type_invariant(&self);
        }
        self.entries
    }
}

} // verus!
