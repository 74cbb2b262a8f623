//! A small map keyed by a number, kept in a vector.
//!
//! Interrupt lines and trap numbers are sparse and few, so a table is a list of
//! entries searched from the front. Its meaning is a `Map`: a number has at most
//! one value, and writing a number again replaces what was there.

use vstd::prelude::*;

verus! {

/// One entry of a [`Table`].
struct Entry<V> {
    key: usize,
    value: V,
}

/// The map that a list of entries stands for: the entry nearest the front
/// decides.
spec fn entries_map<V>(entries: Seq<Entry<V>>) -> Map<usize, V>
    decreases entries.len(),
{
    if entries.len() == 0 {
        Map::empty()
    } else {
        entries_map(entries.drop_first()).insert(entries[0].key, entries[0].value)
    }
}

/// No entry before position `n` has the key `key`.
spec fn absent_before<V>(entries: Seq<Entry<V>>, key: usize, n: int) -> bool {
    forall|j: int| 0 <= j < n ==> (#[trigger] entries[j]).key != key
}

/// A key that no entry has is not in the map.
proof fn lemma_absent<V>(entries: Seq<Entry<V>>, key: usize)
    requires
        absent_before(entries, key, entries.len() as int),
    ensures
        !entries_map(entries).contains_key(key),
    decreases entries.len(),
{
    if entries.len() > 0 {
        let rest = entries.drop_first();
        assert forall|j: int| 0 <= j < rest.len() implies (#[trigger] rest[j]).key != key by {
            assert(rest[j] == entries[j + 1]);
        }
        lemma_absent(rest, key);
    }
}

/// The first entry with a key gives the key's value.
proof fn lemma_first_match<V>(entries: Seq<Entry<V>>, key: usize, i: int)
    requires
        0 <= i < entries.len(),
        entries[i].key == key,
        absent_before(entries, key, i),
    ensures
        entries_map(entries).contains_key(key),
        entries_map(entries)[key] == entries[i].value,
    decreases i,
{
    if i > 0 {
        let rest = entries.drop_first();
        assert(rest[i - 1] == entries[i]);
        assert forall|j: int| 0 <= j < i - 1 implies (#[trigger] rest[j]).key != key by {
            assert(rest[j] == entries[j + 1]);
        }
        lemma_first_match(rest, key, i - 1);
        assert(entries[0].key != key);
    }
}

/// Replacing the value of the first entry with a key writes that key in the
/// map, and nothing else.
proof fn lemma_replace<V>(entries: Seq<Entry<V>>, key: usize, i: int, value: V)
    requires
        0 <= i < entries.len(),
        entries[i].key == key,
        absent_before(entries, key, i),
    ensures
        entries_map(entries.update(i, Entry { key, value })) == entries_map(entries).insert(
            key,
            value,
        ),
    decreases i,
{
    let after = entries.update(i, Entry { key, value });
    if i == 0 {
        assert(after.drop_first() =~= entries.drop_first());
        assert(entries_map(after) =~= entries_map(entries).insert(key, value));
    } else {
        let rest = entries.drop_first();
        assert(rest[i - 1] == entries[i]);
        assert forall|j: int| 0 <= j < i - 1 implies (#[trigger] rest[j]).key != key by {
            assert(rest[j] == entries[j + 1]);
        }
        lemma_replace(rest, key, i - 1, value);
        assert(after.drop_first() =~= rest.update(i - 1, Entry { key, value }));
        assert(entries[0].key != key);
        assert(entries_map(after) =~= entries_map(entries).insert(key, value));
    }
}

/// Appending an entry whose key no entry has writes that key in the map, and
/// nothing else.
proof fn lemma_append<V>(entries: Seq<Entry<V>>, key: usize, value: V)
    requires
        absent_before(entries, key, entries.len() as int),
    ensures
        entries_map(entries.push(Entry { key, value })) == entries_map(entries).insert(key, value),
    decreases entries.len(),
{
    let after = entries.push(Entry { key, value });
    if entries.len() == 0 {
        assert(after.drop_first() =~= entries);
        assert(entries_map(after) =~= entries_map(entries).insert(key, value));
    } else {
        let rest = entries.drop_first();
        assert forall|j: int| 0 <= j < rest.len() implies (#[trigger] rest[j]).key != key by {
            assert(rest[j] == entries[j + 1]);
        }
        lemma_append(rest, key, value);
        assert(after.drop_first() =~= rest.push(Entry { key, value }));
        assert(entries[0].key != key);
        assert(entries_map(after) =~= entries_map(entries).insert(key, value));
    }
}

/// A map from numbers to values of type `V`.
pub struct Table<V> {
    entries: Vec<Entry<V>>,
}

impl<V> Table<V> {
    /// What the table holds.
    pub closed spec fn view(&self) -> Map<usize, V> {
        entries_map(self.entries@)
    }

    /// The empty table.
    pub fn new() -> (table: Self)
        ensures
            table@ == Map::<usize, V>::empty(),
    {
        Table { entries: Vec::new() }
    }

    /// The position of the first entry with the key, if there is one.
    fn position(&self, key: usize) -> (at: Option<usize>)
        ensures
            match at {
                Some(i) => {
                    &&& i < self.entries@.len()
                    &&& self.entries@[i as int].key == key
                    &&& absent_before(self.entries@, key, i as int)
                },
                None => absent_before(self.entries@, key, self.entries@.len() as int),
            },
    {
        let mut i: usize = 0;
        while i < self.entries.len()
            invariant
                i <= self.entries@.len(),
                absent_before(self.entries@, key, i as int),
            decreases self.entries@.len() - i,
        {
            if self.entries[i].key == key {
                return Some(i);
            }
            i += 1;
        }
        None
    }

    /// The value written for `key`, if any.
    pub fn get(&self, key: usize) -> (found: Option<&V>)
        ensures
            match found {
                Some(value) => self@.contains_key(key) && *value == self@[key],
                None => !self@.contains_key(key),
            },
    {
        match self.position(key) {
            Some(i) => {
                proof {
                    lemma_first_match(self.entries@, key, i as int);
                }
                Some(&self.entries[i].value)
            },
            None => {
                proof {
                    lemma_absent(self.entries@, key);
                }
                None
            },
        }
    }

    /// Writes `value` for `key`; a value written before for the same key is
    /// gone.
    pub fn insert(&mut self, key: usize, value: V)
        ensures
            final(self)@ == old(self)@.insert(key, value),
    {
        match self.position(key) {
            Some(i) => {
                proof {
                    lemma_replace(self.entries@, key, i as int, value);
                }
                self.entries[i] = Entry { key, value };
            },
            None => {
                proof {
                    lemma_append(self.entries@, key, value);
                }
                self.entries.push(Entry { key, value });
            },
        }
    }
}

} // verus!
