//! A map keyed by identity.
//!
//! An identity is opaque: all that is known of two identities is whether
//! they are the same. So keys are found by comparing identities one by one,
//! and a lookup walks the entries; the map is meant for the modest numbers
//! of accounts and users that one platform instance holds.
//! Entries are kept in the order in which their keys were first inserted.

use crate::identity::same_principal;
use candid::Principal;
use vstd::prelude::*;

verus! {

/// The map that pairs `keys[i]` with `values[i]`.
pub open spec fn entries_map<V>(keys: Seq<Principal>, values: Seq<V>) -> Map<Principal, V> {
    Map::new(|k: Principal| keys.contains(k), |k: Principal| values[keys.index_of(k)])
}

/// With distinct keys, each position is the entry of its key.
pub proof fn lemma_entry_at<V>(keys: Seq<Principal>, values: Seq<V>, i: int)
    requires
        keys.no_duplicates(),
        keys.len() == values.len(),
        0 <= i < keys.len(),
    ensures
        keys.contains(keys[i]),
        keys.index_of(keys[i]) == i,
        entries_map(keys, values).contains_key(keys[i]),
        entries_map(keys, values)[keys[i]] == values[i],
{
    let j = keys.index_of(keys[i]);
    assert(0 <= j < keys.len() && keys[j] == keys[i]);
}

/// Appending an entry under a new key inserts it into the map.
pub proof fn lemma_entries_push<V>(keys: Seq<Principal>, values: Seq<V>, key: Principal, value: V)
    requires
        keys.no_duplicates(),
        keys.len() == values.len(),
        !keys.contains(key),
    ensures
        keys.push(key).no_duplicates(),
        entries_map(keys.push(key), values.push(value)) == entries_map(keys, values).insert(
            key,
            value,
        ),
{
    let keys2 = keys.push(key);
    let values2 = values.push(value);
    assert(keys2.no_duplicates()) by {
        assert forall|i: int, j: int|
            0 <= i < keys2.len() && 0 <= j < keys2.len() && i != j implies keys2[i] != keys2[j] by {
            if i < keys.len() && j < keys.len() {
                assert(keys[i] != keys[j]);
            } else if i < keys.len() {
                assert(keys[i] == keys2[i]);
            } else {
                assert(keys[j] == keys2[j]);
            }
        }
    }
    let before = entries_map(keys, values);
    let after = entries_map(keys2, values2);
    assert forall|k: Principal| after.contains_key(k) <==> before.insert(key, value).contains_key(
        k,
    ) by {
        if keys2.contains(k) {
            let i = keys2.index_of(k);
            if i < keys.len() {
                assert(keys[i] == k);
            }
        }
        if keys.contains(k) {
            let i = keys.index_of(k);
            assert(keys2[i] == k);
        }
        if k == key {
            assert(keys2[keys.len() as int] == k);
        }
    }
    assert forall|k: Principal| after.contains_key(k) implies after[k] == before.insert(
        key,
        value,
    )[k] by {
        let i = keys2.index_of(k);
        lemma_entry_at(keys2, values2, i);
        if k != key {
            assert(i < keys.len());
            lemma_entry_at(keys, values, i);
        }
    }
    assert(after =~= before.insert(key, value));
}

/// Overwriting the value at the position of a key overwrites it in the map.
pub proof fn lemma_entries_update<V>(keys: Seq<Principal>, values: Seq<V>, i: int, value: V)
    requires
        keys.no_duplicates(),
        keys.len() == values.len(),
        0 <= i < keys.len(),
    ensures
        entries_map(keys, values.update(i, value)) == entries_map(keys, values).insert(
            keys[i],
            value,
        ),
{
    let before = entries_map(keys, values);
    let after = entries_map(keys, values.update(i, value));
    lemma_entry_at(keys, values, i);
    assert forall|k: Principal| after.contains_key(k) implies after[k] == before.insert(
        keys[i],
        value,
    )[k] by {
        let j = keys.index_of(k);
        lemma_entry_at(keys, values, j);
    }
    assert(after =~= before.insert(keys[i], value));
}

/// A finite map from identities to values of type `V`.
pub struct PrincipalMap<V> {
    keys: Vec<Principal>,
    values: Vec<V>,
}

impl<V> View for PrincipalMap<V> {
    type V = Map<Principal, V>;

    open spec fn view(&self) -> Map<Principal, V> {
        entries_map(self.keys(), self.values())
    }
}

impl<V> PrincipalMap<V> {
    /// The keys, in the order of their first insertion.
    pub closed spec fn keys(&self) -> Seq<Principal> {
        self.keys@
    }

    /// The values, each at the position of its key.
    pub closed spec fn values(&self) -> Seq<V> {
        self.values@
    }

    /// Every key has one value, and no key occurs twice. This holds of
    /// every map at all times.
    #[verifier::type_invariant]
    pub open spec fn wf(&self) -> bool {
        &&& self.keys().len() == self.values().len()
        &&& self.keys().no_duplicates()
    }

    /// The empty map.
    pub fn new() -> (empty: Self)
        ensures
            empty.keys() == Seq::<Principal>::empty(),
            empty.values() == Seq::<V>::empty(),
            empty@ == Map::<Principal, V>::empty(),
    {
        let empty = PrincipalMap { keys: Vec::new(), values: Vec::new() };
        assert(empty@ =~= Map::<Principal, V>::empty());
        empty
    }

    /// The number of entries.
    pub fn len(&self) -> (n: usize)
        ensures
            n == self.keys().len(),
            n == self.values().len(),
    {
        proof {
            use_type_invariant(self);
        }
        self.keys.len()
    }

    /// The position of `key` among the keys, if it is one.
    pub fn position(&self, key: Principal) -> (slot: Option<usize>)
        ensures
            match slot {
                Some(i) => i < self.keys().len() && self.keys()[i as int] == key
                    && self.keys().index_of(key) == i,
                None => !self.keys().contains(key),
            },
            slot is Some <==> self@.contains_key(key),
    {
        proof {
            use_type_invariant(self);
        }
        let mut i: usize = 0;
        while i < self.keys.len()
            invariant
                self.wf(),
                i <= self.keys.len(),
                forall|j: int| 0 <= j < i ==> self.keys@[j] != key,
            decreases self.keys.len() - i,
        {
            if same_principal(&self.keys[i], &key) {
                proof {
                    lemma_entry_at(self.keys(), self.values(), i as int);
                }
                return Some(i);
            }
            i = i + 1;
        }
        None
    }

    /// Whether `key` has an entry.
    pub fn contains_key(&self, key: Principal) -> (found: bool)
        ensures
            found == self@.contains_key(key),
    {
        self.position(key).is_some()
    }

    /// The value stored under `key`, if there is one.
    pub fn get(&self, key: Principal) -> (found: Option<&V>)
        ensures
            match found {
                Some(value) => self@.contains_key(key) && *value == self@[key],
                None => !self@.contains_key(key),
            },
    {
        proof {
            use_type_invariant(self);
        }
        match self.position(key) {
            Some(i) => {
                proof {
                    lemma_entry_at(self.keys(), self.values(), i as int);
                }
                Some(&self.values[i])
            },
            None => None,
        }
    }

    /// Stores `value` under `key`. A key that is already present keeps its
    /// position and gets the new value; a new key is appended.
    pub fn insert(&mut self, key: Principal, value: V)
        ensures
            final(self)@ == old(self)@.insert(key, value),
            old(self).keys().contains(key) ==> final(self).keys() == old(self).keys()
                && final(self).values() == old(self).values().update(
                old(self).keys().index_of(key),
                value,
            ),
            !old(self).keys().contains(key) ==> final(self).keys() == old(self).keys().push(key)
                && final(self).values() == old(self).values().push(value),
    {
        proof {
            use_type_invariant(&*self);
        }
        match self.position(key) {
            Some(i) => {
                proof {
                    lemma_entries_update(self.keys(), self.values(), i as int, value);
                }
                self.values[i] = value;
            },
            None => {
                proof {
                    lemma_entries_push(self.keys(), self.values(), key, value);
                }
                // The map is taken apart and put together again, so that no
                // map ever exists with a key that lacks its value.
                let mut taken = PrincipalMap::new();
                std::mem::swap(self, &mut taken);
                let PrincipalMap { keys: mut keys, values: mut values } = taken;
                keys.push(key);
                values.push(value);
                *self = PrincipalMap { keys, values };
            },
        }
    }
}

} // verus!
