//! A keyed table: at most one value under each 256-bit key.
//!
//! This is the storage the registry needs from its host, held in memory: a
//! value can be looked up, and writing under a key replaces what was there.
//! To its users a table is a finite map.

use vstd::prelude::*;
use crate::identity::same_bytes;

verus! {

/// One row of a table.
pub struct Entry<V> {
    pub key: [u8; 32],
    pub value: V,
}

/// A table from 256-bit keys to values of type `V`.
pub struct Table<V> {
    entries: Vec<Entry<V>>,
}

/// Whether some row is filed under `key`.
pub open spec fn holds_key<V>(entries: Seq<Entry<V>>, key: [u8; 32]) -> bool {
    exists|i: int| 0 <= i < entries.len() && (#[trigger] entries[i]).key == key
}

/// Whether row `i` is the earliest row filed under `key`.
pub open spec fn is_first_at<V>(entries: Seq<Entry<V>>, key: [u8; 32], i: int) -> bool {
    &&& 0 <= i < entries.len()
    &&& entries[i].key == key
    &&& forall|j: int| 0 <= j < i ==> (#[trigger] entries[j]).key != key
}

/// The earliest row filed under `key`.
pub open spec fn first_at<V>(entries: Seq<Entry<V>>, key: [u8; 32]) -> int {
    choose|i: int| is_first_at(entries, key, i)
}

/// The map that a sequence of rows stands for: each key that occurs leads to
/// the value of its earliest row.
pub open spec fn as_map<V>(entries: Seq<Entry<V>>) -> Map<[u8; 32], V> {
    Map::new(
        |key: [u8; 32]| holds_key(entries, key),
        |key: [u8; 32]| entries[first_at(entries, key)].value,
    )
}

impl<V> Table<V> {
    /// The finite map that the table stands for.
    pub closed spec fn view(&self) -> Map<[u8; 32], V> {
        as_map(self.entries@)
    }

    /// A table without rows.
    pub fn new() -> (r: Self)
        ensures
            r@ == Map::<[u8; 32], V>::empty(),
    {
        Table { entries: Vec::new() }
    }

    fn position(&self, key: &[u8; 32]) -> (r: Option<usize>)
        ensures
            match r {
                Some(i) => is_first_at(self.entries@, *key, i as int),
                None => !holds_key(self.entries@, *key),
            },
    {
        let mut i: usize = 0;
        while i < self.entries.len()
            invariant
                i <= self.entries.len(),
                forall|j: int| 0 <= j < i ==> (#[trigger] self.entries@[j]).key != *key,
            decreases self.entries.len() - i,
        {
            if same_bytes(&self.entries[i].key, key) {
                return Some(i);
            }
            i += 1;
        }
        None
    }

    /// The value filed under `key`, if there is one.
    pub fn get(&self, key: &[u8; 32]) -> (r: Option<&V>)
        ensures
            match r {
                Some(v) => self@.contains_key(*key) && *v == self@[*key],
                None => !self@.contains_key(*key),
            },
    {
        match self.position(key) {
            Some(i) => {
                proof {
                    lemma_first_at(self.entries@, *key, i as int);
                }
                Some(&self.entries[i].value)
            },
            None => None,
        }
    }

    /// A mutable borrow of the value filed under `key`, if there is one.
    /// Whatever the borrower leaves there is the value under `key` afterwards;
    /// no other key is touched.
    pub fn get_mut(&mut self, key: &[u8; 32]) -> (r: Option<&mut V>)
        ensures
            match r {
                Some(v) => old(self)@.contains_key(*key) && *v == old(self)@[*key] && final(self)@
                    == old(self)@.insert(*key, *final(v)),
                None => !old(self)@.contains_key(*key) && *final(self) == *old(self),
            },
    {
        match self.position(key) {
            Some(i) => {
                let ghost before = self.entries@;
                let slot = &mut self.entries[i].value;
                proof {
                    lemma_first_at(before, *key, i as int);
                    lemma_update_value(before, *key, i as int, *final(slot));
                }
                Some(slot)
            },
            None => None,
        }
    }

    /// Files `value` under `key`, replacing what was filed there.
    pub fn insert(&mut self, key: [u8; 32], value: V)
        ensures
            final(self)@ == old(self)@.insert(key, value),
    {
        match self.position(&key) {
            Some(i) => {
                proof {
                    lemma_update_value(self.entries@, key, i as int, value);
                }
                self.entries[i].value = value;
            },
            None => {
                proof {
                    lemma_push_entry(self.entries@, key, value);
                }
                self.entries.push(Entry { key, value });
            },
        }
    }
}

/// The earliest row under a key is the only row that is the earliest.
proof fn lemma_first_at<V>(entries: Seq<Entry<V>>, key: [u8; 32], i: int)
    requires
        is_first_at(entries, key, i),
    ensures
        holds_key(entries, key),
        first_at(entries, key) == i,
{
}

/// Among the rows under a key, one is the earliest.
proof fn lemma_first_exists<V>(entries: Seq<Entry<V>>, key: [u8; 32], j: int)
    requires
        0 <= j < entries.len(),
        entries[j].key == key,
    ensures
        is_first_at(entries, key, first_at(entries, key)),
    decreases j,
{
    if forall|k: int| 0 <= k < j ==> (#[trigger] entries[k]).key != key {
        assert(is_first_at(entries, key, j));
    } else {
        let k = choose|k: int| 0 <= k < j && (#[trigger] entries[k]).key == key;
        lemma_first_exists(entries, key, k);
    }
}

/// Two sequences of rows with the same keys at the same places, the second
/// possibly longer, agree on the earliest row of a key that the first holds.
proof fn lemma_same_first<V>(entries: Seq<Entry<V>>, after: Seq<Entry<V>>, key: [u8; 32])
    requires
        entries.len() <= after.len(),
        forall|j: int| 0 <= j < entries.len() ==> (#[trigger] after[j]).key == entries[j].key,
        holds_key(entries, key),
    ensures
        holds_key(after, key),
        first_at(after, key) == first_at(entries, key),
        is_first_at(entries, key, first_at(entries, key)),
{
    let j = choose|j: int| 0 <= j < entries.len() && (#[trigger] entries[j]).key == key;
    lemma_first_exists(entries, key, j);
    let i = first_at(entries, key);
    assert(is_first_at(after, key, i));
    lemma_first_at(after, key, i);
}

/// Replacing the value of the earliest row under a key writes the map at that
/// key and nowhere else.
proof fn lemma_update_value<V>(entries: Seq<Entry<V>>, key: [u8; 32], i: int, value: V)
    requires
        is_first_at(entries, key, i),
    ensures
        as_map(entries.update(i, Entry { key, value })) == as_map(entries).insert(key, value),
{
    let after = entries.update(i, Entry { key, value });
    lemma_first_at(entries, key, i);
    assert forall|k: [u8; 32]| holds_key(after, k) implies holds_key(entries, k) by {
        let j = choose|j: int| 0 <= j < after.len() && (#[trigger] after[j]).key == k;
        assert(entries[j].key == k);
    }
    assert forall|k: [u8; 32]| holds_key(entries, k) implies holds_key(after, k) && as_map(after)[k]
        == as_map(entries).insert(key, value)[k] by {
        lemma_same_first(entries, after, k);
    }
}

/// A row under a key that no row holds yet extends the map by that key.
proof fn lemma_push_entry<V>(entries: Seq<Entry<V>>, key: [u8; 32], value: V)
    requires
        !holds_key(entries, key),
    ensures
        as_map(entries.push(Entry { key, value })) == as_map(entries).insert(key, value),
{
    let after = entries.push(Entry { key, value });
    let n = entries.len() as int;
    assert(is_first_at(after, key, n));
    lemma_first_at(after, key, n);
    assert forall|k: [u8; 32]| holds_key(after, k) && k != key implies holds_key(entries, k) by {
        let j = choose|j: int| 0 <= j < after.len() && (#[trigger] after[j]).key == k;
        assert(entries[j].key == k);
    }
    assert forall|k: [u8; 32]| holds_key(entries, k) implies holds_key(after, k) && as_map(after)[k]
        == as_map(entries).insert(key, value)[k] by {
        lemma_same_first(entries, after, k);
    }
}

} // verus!
