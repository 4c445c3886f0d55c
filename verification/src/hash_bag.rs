//! A map from a key to the values inserted under it.
//!
//! What the contracts promise of a bag, they promise for key types whose
//! hashing and equality follow the hash-table model of vstd
//! ([`obeys_key_model`]), which holds of the integer types.
use std::collections::HashMap;
use std::hash::Hash;
use vstd::prelude::*;
use vstd::std_specs::hash::obeys_key_model;

verus! {

/// What a bag holds after `value` has been appended to the sequence under `key`.
pub open spec fn bag_insert<K, V>(bag: Map<K, Seq<V>>, key: K, value: V) -> Map<K, Seq<V>> {
    bag.insert(key, bag_values(bag, key).push(value))
}

/// The sequence stored under `key`, empty where the bag has no such key.
pub open spec fn bag_values<K, V>(bag: Map<K, Seq<V>>, key: K) -> Seq<V> {
    if bag.contains_key(key) {
        bag[key]
    } else {
        Seq::empty()
    }
}

/// Values inserted under one key are read back in the order in which they
/// were inserted, behind what was there before: three inserts into a bag
/// that has nothing under `key` leave exactly those three values under it.
pub proof fn lemma_insertion_order<K, V>(bag: Map<K, Seq<V>>, key: K, v1: V, v2: V, v3: V)
    ensures
        ({
            let filled = bag_insert(bag_insert(bag_insert(bag, key, v1), key, v2), key, v3);
            &&& filled.contains_key(key)
            &&& filled[key] == bag_values(bag, key) + seq![v1, v2, v3]
            &&& !bag.contains_key(key) ==> filled[key] == seq![v1, v2, v3]
        }),
{
    let filled = bag_insert(bag_insert(bag_insert(bag, key, v1), key, v2), key, v3);
    assert(filled[key] =~= bag_values(bag, key) + seq![v1, v2, v3]);
    if !bag.contains_key(key) {
        assert(filled[key] =~= seq![v1, v2, v3]);
    }
}

/// An insert under one key leaves every other key as it was, and takes
/// nothing away under its own.
pub proof fn lemma_insert_keeps<K, V>(bag: Map<K, Seq<V>>, key: K, value: V, other: K)
    ensures
        other != key ==> bag_insert(bag, key, value).contains_key(other) == bag.contains_key(other),
        other != key ==> bag_values(bag_insert(bag, key, value), other) == bag_values(bag, other),
        bag_values(bag, key).is_prefix_of(bag_values(bag_insert(bag, key, value), key)),
        bag_values(bag_insert(bag, key, value), key).len() == bag_values(bag, key).len() + 1,
{
}

/// A map from a key to the values inserted under it, in insertion order.
#[derive(Debug, Clone)]
pub struct HashBag<K: Hash + Eq, V>(HashMap<K, Vec<V>>);

impl<K: Hash + Eq, V> View for HashBag<K, V> {
    type V = Map<K, Seq<V>>;

    closed spec fn view(&self) -> Map<K, Seq<V>> {
        self.0@.map_values(|row: Vec<V>| row@)
    }
}

impl<K: Hash + Eq, V> HashBag<K, V> {
    /// Appends `value` to the sequence under `key`, which is created where
    /// the bag has none. Nothing else changes, and nothing is ever dropped.
    pub fn insert(&mut self, key: K, value: V)
        ensures
            obeys_key_model::<K>() ==> final(self)@ == bag_insert(old(self)@, key, value),
    {
        let mut row = match self.0.remove(&key) {
            Some(row) => row,
            None => Vec::new(),
        };
        row.push(value);
        self.0.insert(key, row);
        proof {
            if obeys_key_model::<K>() {
                assert(final(self)@ =~= bag_insert(old(self)@, key, value));
            }
        }
    }

    /// The sequence under `key`, in insertion order, or nothing where no
    /// value was inserted under `key`.
    pub fn get(&self, key: &K) -> (row: Option<&Vec<V>>)
        ensures
            obeys_key_model::<K>() ==> match row {
                Some(values) => self@.contains_key(*key) && values@ == self@[*key],
                None => !self@.contains_key(*key),
            },
    {
        self.0.get(key)
    }
}

impl<K: Hash + Eq, V> Default for HashBag<K, V> {
    /// The bag that holds nothing.
    fn default() -> (bag: Self)
        ensures
            bag@ == Map::<K, Seq<V>>::empty(),
    {
        let bag = HashBag(HashMap::new());
        assert(bag@ =~= Map::<K, Seq<V>>::empty());
        bag
    }
}

} // verus!
