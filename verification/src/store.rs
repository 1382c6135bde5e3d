use vstd::prelude::*;
use std::collections::HashMap;

verus! {

broadcast use vstd::std_specs::hash::group_hash_axioms;

/// The records of a store, each taken by its view.
pub open spec fn records_view<T: View>(records: Map<u64, T>) -> Map<u64, T::V> {
    records.map_values(|record: T| record@)
}

/// Storing a record stores its view in the view.
proof fn lemma_records_view_insert<T: View>(records: Map<u64, T>, id: u64, record: T)
    ensures
        records_view(records.insert(id, record)) == records_view(records).insert(id, record@),
{
    assert(records_view(records.insert(id, record)) =~= records_view(records).insert(id, record@));
}

/// The records of one kind, each under its id. A record can be added under
/// an unused id and looked up; none can be removed.
pub struct RecordStore<T> {
    records: HashMap<u64, T>,
}

impl<T: View> View for RecordStore<T> {
    type V = Map<u64, T::V>;

    closed spec fn view(&self) -> Map<u64, T::V> {
        records_view(self.records@)
    }
}

impl<T: View> RecordStore<T> {
    /// The store without any record.
    pub fn new() -> (store: Self)
        ensures
            store@ == Map::<u64, T::V>::empty(),
    {
        let store = RecordStore { records: HashMap::new() };
        assert(store@ =~= Map::<u64, T::V>::empty());
        store
    }

    /// Whether a record is stored under `id`.
    pub fn contains(&self, id: u64) -> (found: bool)
        ensures
            found == self@.contains_key(id),
    {
        self.records.contains_key(&id)
    }

    /// The record stored under `id`, if there is one.
    pub fn get(&self, id: u64) -> (found: Option<&T>)
        ensures
            match found {
                Some(record) => self@.contains_key(id) && self@[id] == record@,
                None => !self@.contains_key(id),
            },
    {
        self.records.get(&id)
    }

    /// Stores `record` under `id` unless the id is in use, and says whether it
    /// did; a record that is stored already is never overwritten.
    pub fn insert_if_absent(&mut self, id: u64, record: T) -> (inserted: bool)
        ensures
            inserted == !old(self)@.contains_key(id),
            final(self)@ == if inserted {
                old(self)@.insert(id, record@)
            } else {
                old(self)@
            },
    {
        if self.records.contains_key(&id) {
            false
        } else {
            proof {
                lemma_records_view_insert(self.records@, id, record);
            }
            self.records.insert(id, record);
            true
        }
    }

    /// Puts `record` in the place of the record stored under `id`.
    pub(crate) fn replace(&mut self, id: u64, record: T)
        requires
            old(self)@.contains_key(id),
        ensures
            final(self)@ == old(self)@.insert(id, record@),
    {
        proof {
            lemma_records_view_insert(self.records@, id, record);
        }
        self.records.insert(id, record);
    }
}

impl<T: View + Clone> RecordStore<T> {
    /// Every record, by id.
    pub fn list(&self) -> (all: HashMap<u64, T>)
        ensures
            records_view(all@) == self@,
    {
        self.records.clone()
    }
}

} // verus!
