//! A keyed store: the ledger's records, each under one key.
//!
//! The store is a map from keys to values. A key is told from another by its
//! identity, a mathematical value that two keys share exactly when they are
//! the same key.

use crate::address::Address;
use vstd::prelude::*;

verus! {

/// A type whose values serve as keys of a store.
pub trait StoreKey: Sized {
    /// What identifies a key.
    type Id;

    /// The identity of the key.
    spec fn id(&self) -> Self::Id;

    /// Whether two keys are the same key.
    fn same_key(&self, other: &Self) -> (r: bool)
        ensures
            r == (self.id() == other.id()),
    ;
}

impl StoreKey for Address {
    type Id = Address;

    open spec fn id(&self) -> Address {
        *self
    }

    fn same_key(&self, other: &Self) -> (r: bool) {
        *self == *other
    }
}

impl StoreKey for u32 {
    type Id = u32;

    open spec fn id(&self) -> u32 {
        *self
    }

    fn same_key(&self, other: &Self) -> (r: bool) {
        *self == *other
    }
}

impl StoreKey for String {
    type Id = Seq<char>;

    open spec fn id(&self) -> Seq<char> {
        self@
    }

    fn same_key(&self, other: &Self) -> (r: bool) {
        *self == *other
    }
}

impl<A: StoreKey, B: StoreKey> StoreKey for (A, B) {
    type Id = (A::Id, B::Id);

    open spec fn id(&self) -> (A::Id, B::Id) {
        (self.0.id(), self.1.id())
    }

    fn same_key(&self, other: &Self) -> (r: bool) {
        self.0.same_key(&other.0) && self.1.same_key(&other.1)
    }
}

/// A record of the store.
struct Entry<K, V> {
    key: K,
    value: V,
}

/// Whether the record at `index` is the one under the key with identity `id`.
spec fn holds_at<K: StoreKey, V>(entries: Seq<Entry<K, V>>, id: K::Id, index: int) -> bool {
    0 <= index < entries.len() && entries[index].key.id() == id
}

/// Whether no two records are under the same key.
spec fn distinct<K: StoreKey, V>(entries: Seq<Entry<K, V>>) -> bool {
    forall|i: int, j: int|
        #![trigger entries[i], entries[j]]
        0 <= i < j < entries.len() ==> entries[i].key.id() != entries[j].key.id()
}

/// The map that the records make.
spec fn as_map<K: StoreKey, V>(entries: Seq<Entry<K, V>>) -> Map<K::Id, V> {
    Map::new(
        |id: K::Id| exists|i: int| holds_at(entries, id, i),
        |id: K::Id| entries[choose|i: int| holds_at(entries, id, i)].value,
    )
}

/// A store of values under keys, at most one value under each key.
pub struct Store<K: StoreKey, V> {
    entries: Vec<Entry<K, V>>,
}

impl<K: StoreKey, V> View for Store<K, V> {
    type V = Map<K::Id, V>;

    closed spec fn view(&self) -> Map<K::Id, V> {
        as_map(self.entries@)
    }
}

impl<K: StoreKey, V> Store<K, V> {
    #[verifier::type_invariant]
    spec fn one_record_per_key(self) -> bool {
        distinct(self.entries@)
    }

    /// The empty store.
    pub fn new() -> (r: Self)
        ensures
            r@ == Map::<K::Id, V>::empty(),
    {
        let r = Store { entries: Vec::new() };
        r
    }

    /// Where the record under `key` is, if there is one.
    fn find(&self, key: &K) -> (r: Option<usize>)
        ensures
            r is Some <==> self@.contains_key(key.id()),
            r is Some ==> holds_at(self.entries@, key.id(), r->Some_0 as int),
    {
        let mut i: usize = 0;
        while i < self.entries.len()
            invariant
                i <= self.entries.len(),
                forall|k: int| 0 <= k < i ==> !holds_at(self.entries@, key.id(), k),
            decreases self.entries.len() - i,
        {
            if self.entries[i].key.same_key(key) {
                assert(holds_at(self.entries@, key.id(), i as int));
                return Some(i);
            }
            i += 1;
        }
        None
    }

    /// Whether there is a value under `key`.
    pub fn has(&self, key: &K) -> (r: bool)
        ensures
            r == self@.contains_key(key.id()),
    {
        self.find(key).is_some()
    }

    /// The value under `key`, if there is one.
    pub fn get(&self, key: &K) -> (r: Option<&V>)
        ensures
            r is Some <==> self@.contains_key(key.id()),
            r is Some ==> *r->Some_0 == self@[key.id()],
    {
        proof {
            use_type_invariant(self);
        }
        match self.find(key) {
            None => None,
            Some(index) => Some(&self.entries[index].value),
        }
    }

    /// Puts `value` under `key`, in place of what was there.
    pub fn set(&mut self, key: K, value: V)
        ensures
            final(self)@ == old(self)@.insert(key.id(), value),
    {
        proof {
            use_type_invariant(&*self);
        }
        let found = self.find(&key);
        let mut entries = Vec::new();
        std::mem::swap(&mut entries, &mut self.entries);
        let ghost before = entries@;
        let ghost id = key.id();
        match found {
            Some(index) => {
                entries.set(index, Entry { key, value });
            },
            None => {
                entries.push(Entry { key, value });
            },
        }
        proof {
            lemma_set_record(before, entries@, id, value);
        }
        self.entries = entries;
    }

    /// Takes away what is under `key`.
    pub fn remove(&mut self, key: &K)
        ensures
            final(self)@ == old(self)@.remove(key.id()),
    {
        proof {
            use_type_invariant(&*self);
        }
        let found = self.find(key);
        match found {
            Some(index) => {
                let mut entries = Vec::new();
                std::mem::swap(&mut entries, &mut self.entries);
                let ghost before = entries@;
                entries.remove(index);
                proof {
                    lemma_remove_record(before, entries@, key.id(), index as int);
                }
                self.entries = entries;
            },
            None => {},
        }
    }
}

/// Replacing the record under a key, or adding one where there was none,
/// keeps the records distinct and puts the value under the key.
proof fn lemma_set_record<K: StoreKey, V>(
    before: Seq<Entry<K, V>>,
    after: Seq<Entry<K, V>>,
    id: K::Id,
    value: V,
)
    requires
        distinct(before),
        ({
            ||| exists|index: int, key: K|
                holds_at(before, id, index) && key.id() == id && after == before.update(
                    index,
                    Entry { key, value },
                )
            ||| exists|key: K|
                (forall|i: int| !holds_at(before, id, i)) && key.id() == id && after == before.push(
                    Entry { key, value },
                )
        }),
    ensures
        distinct(after),
        as_map(after) == as_map(before).insert(id, value),
{
    let placed: int = if exists|i: int| holds_at(before, id, i) {
        choose|i: int| holds_at(before, id, i)
    } else {
        before.len() as int
    };
    assert(holds_at(after, id, placed));
    assert forall|i: int, j: int|
        #![trigger after[i], after[j]]
        0 <= i < j < after.len() implies after[i].key.id() != after[j].key.id() by {
        if j == placed && after[i].key.id() == id {
            assert(holds_at(before, id, i));
        }
    }
    assert forall|other: K::Id| #[trigger]
        as_map(after).contains_key(other) == as_map(before).insert(id, value).contains_key(
            other,
        ) by {
        if other != id {
            if as_map(after).contains_key(other) {
                let i = choose|i: int| holds_at(after, other, i);
                assert(holds_at(before, other, i));
            }
            if as_map(before).contains_key(other) {
                let i = choose|i: int| holds_at(before, other, i);
                assert(holds_at(after, other, i));
            }
        }
    }
}

/// Taking out the record under a key keeps the records distinct and takes
/// the key out of the map.
proof fn lemma_remove_record<K: StoreKey, V>(
    before: Seq<Entry<K, V>>,
    after: Seq<Entry<K, V>>,
    id: K::Id,
    index: int,
)
    requires
        distinct(before),
        holds_at(before, id, index),
        after == before.remove(index),
    ensures
        distinct(after),
        as_map(after) == as_map(before).remove(id),
{
    assert forall|other: K::Id| #[trigger]
        as_map(after).contains_key(other) == as_map(before).remove(id).contains_key(other) by {
        if as_map(after).contains_key(other) {
            let i = choose|i: int| holds_at(after, other, i);
            let bi = if i < index {
                i
            } else {
                i + 1
            };
            assert(holds_at(before, other, bi));
        }
        if as_map(before).remove(id).contains_key(other) {
            let bi = choose|i: int| holds_at(before, other, i);
            let i = if bi < index {
                bi
            } else {
                bi - 1
            };
            assert(holds_at(after, other, i));
        }
    }
}

} // verus!
