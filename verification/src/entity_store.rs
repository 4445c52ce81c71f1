//! A keyed collection whose keys are assigned by a counter.
//!
//! Reports, service requests and appointments are each kept in a store of
//! their own. A store hands out the ids `0, 1, 2, ...` in order, never
//! removes a record, and lets any record be overwritten in place.

use crate::id_allocator::IdAllocator;
use std::collections::HashMap;
use vstd::prelude::*;

verus! {

broadcast use vstd::std_specs::hash::group_hash_axioms;

/// Records of type `T` under counter-assigned ids.
pub struct EntityStore<T> {
    records: HashMap<u64, T>,
    ids: IdAllocator,
}

impl<T> View for EntityStore<T> {
    type V = Map<u64, T>;

    closed spec fn view(&self) -> Map<u64, T> {
        self.records@
    }
}

impl<T> EntityStore<T> {
    /// The id that the next record will get, which is also the number of
    /// records stored.
    pub closed spec fn next_id(&self) -> nat {
        self.ids@
    }

    /// The ids in use are exactly the ids handed out so far. This holds of
    /// every store at all times.
    #[verifier::type_invariant]
    spec fn wf(&self) -> bool {
        &&& self.records@.dom().finite()
        &&& self.records@.len() == self.ids@
        &&& forall|id: u64| self.records@.contains_key(id) <==> id < self.ids@
    }

    /// The records in the order of their ids.
    pub open spec fn records(&self) -> Seq<T> {
        Seq::new(self.next_id(), |i: int| self@[i as u64])
    }

    /// An empty store, whose first id is 0.
    pub fn new() -> (store: Self)
        ensures
            store.next_id() == 0,
            store@ == Map::<u64, T>::empty(),
            store.records() == Seq::<T>::empty(),
    {
        EntityStore { records: HashMap::new(), ids: IdAllocator::new() }
    }

    /// The id that the next record will get.
    pub fn upcoming_id(&self) -> (id: u64)
        ensures
            id == self.next_id(),
            forall|used: u64| self@.contains_key(used) <==> used < id,
    {
        proof {
            use_type_invariant(self);
        }
        self.ids.peek()
    }

    /// Stores `record` under the next id and returns that id.
    pub fn add(&mut self, record: T) -> (id: u64)
        ensures
            id == old(self).next_id(),
            !old(self)@.contains_key(id),
            final(self).next_id() == old(self).next_id() + 1,
            final(self)@ == old(self)@.insert(id, record),
            final(self).records() == old(self).records().push(record),
    {
        proof {
            use_type_invariant(&*self);
        }
        // The store is taken apart and put together again, so that no store
        // ever exists whose counter disagrees with its records.
        let mut taken = EntityStore::<T>::new();
        std::mem::swap(self, &mut taken);
        let EntityStore { records: mut records, ids: mut ids } = taken;
        let id: u64 = ids.peek();
        records.insert(id, record);
        proof {
            vstd::set::axiom_set_insert_len(old(self).records@.dom(), id);
            vstd::set::axiom_set_insert_finite(old(self).records@.dom(), id);
            assert(records@.dom() =~= old(self).records@.dom().insert(id));
            // The records fit in memory, so their number, and with it the
            // next id, fits in 64 bits.
            assert(records@.len() == records.len());
        }
        let _ = ids.next();
        *self = EntityStore { records, ids };
        assert(self.records() =~= old(self).records().push(record));
        id
    }

    /// The record stored under `id`, if that id is in use.
    pub fn get(&self, id: u64) -> (found: Option<&T>)
        ensures
            match found {
                Some(record) => id < self.next_id() && self@.contains_key(id) && *record
                    == self@[id] && *record == self.records()[id as int],
                None => id >= self.next_id() && !self@.contains_key(id),
            },
    {
        proof {
            use_type_invariant(self);
        }
        self.records.get(&id)
    }

    /// Overwrites the record stored under `id`, if that id is in use, and
    /// returns whether it is.
    pub fn replace(&mut self, id: u64, record: T) -> (replaced: bool)
        ensures
            replaced == old(self)@.contains_key(id),
            final(self).next_id() == old(self).next_id(),
            final(self)@ == if replaced {
                old(self)@.insert(id, record)
            } else {
                old(self)@
            },
            final(self).records() == if replaced {
                old(self).records().update(id as int, record)
            } else {
                old(self).records()
            },
    {
        proof {
            use_type_invariant(&*self);
        }
        if self.records.contains_key(&id) {
            let mut taken = EntityStore::<T>::new();
            std::mem::swap(self, &mut taken);
            let EntityStore { records: mut records, ids } = taken;
            records.insert(id, record);
            assert(records@.dom() =~= old(self).records@.dom());
            // The records fit in memory, so every position is an id.
            assert(records@.len() == records.len());
            *self = EntityStore { records, ids };
            assert(self.records() =~= old(self).records().update(id as int, record));
            true
        } else {
            false
        }
    }
}

} // verus!
