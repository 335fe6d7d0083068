//! The store behind the registry: one slot for the lease counter and one
//! record per key.
//!
//! It stands where the ledger's key-value storage stands for a deployed
//! registry, and holds as much of it as was put in: all of it, or the
//! entries that one call concerns.

use std::collections::BTreeMap;
use vstd::prelude::*;
use crate::key::Leasebook;
use crate::lease::Lease;
use crate::state::StoreState;

verus! {

/// A lease counter and a set of records, each under its key.
pub struct LeaseStore {
    counter: Option<u64>,
    leases: BTreeMap<u64, Lease>,
}

impl View for LeaseStore {
    type V = StoreState;

    /// The contents: the counter as it is, and the record of each key whose
    /// identifier is in the table.
    closed spec fn view(&self) -> StoreState {
        StoreState {
            counter: self.counter,
            leases: Map::new(
                |key: Leasebook| self.leases@.dom().contains(key.id()),
                |key: Leasebook| self.leases@[key.id()],
            ),
        }
    }
}

impl LeaseStore {
    /// A store in which nothing was written yet.
    pub fn new() -> (store: LeaseStore)
        ensures
            store@ == StoreState::empty(),
    {
        let store = LeaseStore { counter: None, leases: BTreeMap::new() };
        assert(store@.leases =~= Map::<Leasebook, Lease>::empty());
        store
    }

    /// The lease counter, or nothing where it was never written.
    pub fn counter(&self) -> (counter: Option<u64>)
        ensures
            counter == self@.counter,
    {
        self.counter
    }

    /// Writes the lease counter. The records stay as they are.
    pub fn set_counter(&mut self, count: u64)
        ensures
            final(self)@ == (StoreState { counter: Some(count), leases: old(self)@.leases }),
    {
        self.counter = Some(count);
    }

    /// A copy of the record kept under `key`, or nothing where there is none.
    pub fn get(&self, key: &Leasebook) -> (found: Option<Lease>)
        ensures
            found == if self@.leases.dom().contains(*key) {
                Some(self@.leases[*key])
            } else {
                None
            },
    {
        match key {
            Leasebook::Lease(lease_id) => {
                match self.leases.get(lease_id) {
                    Some(lease) => Some(lease.clone()),
                    None => None,
                }
            },
        }
    }

    /// Keeps `lease` under `key`, in place of what was there. The counter and
    /// the other records stay as they are.
    pub fn set(&mut self, key: Leasebook, lease: Lease)
        ensures
            final(self)@ == old(self)@.with_record(key.id(), lease),
    {
        match key {
            Leasebook::Lease(lease_id) => {
                self.leases.insert(lease_id, lease);
            },
        }
        assert(self@.leases =~= old(self)@.leases.insert(key, lease));
    }
}

} // verus!
