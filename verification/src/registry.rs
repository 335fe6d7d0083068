//! The registry: the five operations on a store of leases.

use vstd::prelude::*;
use soroban_sdk::Address;
use crate::error::LeaseError;
use crate::key::Leasebook;
use crate::lease::Lease;
use crate::state::StoreState;
use crate::store::LeaseStore;

verus! {

/// The lease registry.
///
/// It issues identifiers 1, 2, 3, ... in the order of creation and keeps every
/// record it has filed. Each operation reads the counter or one record from
/// the store, decides, and writes back; an operation that is refused writes
/// nothing. The ledger time of an operation is handed in by the caller; the
/// registry's own identity is fixed when it is made.
pub struct LeaseContract {
    identity: Address,
    store: LeaseStore,
}

impl View for LeaseContract {
    type V = StoreState;

    /// The contents of the store that the registry works on.
    closed spec fn view(&self) -> StoreState {
        self.store@
    }
}

impl LeaseContract {
    /// The identity under which the registry acts, and which owns every lease
    /// it creates.
    pub closed spec fn identity(&self) -> Address {
        self.identity
    }

    /// The registry is in order: its store is well formed, and every record
    /// in it is owned by the registry's identity.
    pub open spec fn wf(&self) -> bool {
        &&& self@.wf()
        &&& self@.owned_by(self.identity())
    }

    /// A registry without leases, acting under `identity`.
    pub fn new(identity: Address) -> (registry: LeaseContract)
        ensures
            registry.identity() == identity,
            registry@ == StoreState::empty(),
            registry.wf(),
    {
        LeaseContract { identity, store: LeaseStore::new() }
    }

    /// A registry that acts under `identity` on the entries in `store`.
    pub fn open(identity: Address, store: LeaseStore) -> (registry: LeaseContract)
        ensures
            registry.identity() == identity,
            registry@ == store@,
    {
        LeaseContract { identity, store }
    }

    /// Creates a lease at ledger time `now` and returns its identifier.
    ///
    /// The identifier is one more than the number of leases created before.
    /// The new record is owned by the registry's identity, active, without a
    /// lessee and not returned; it starts at `now` and ends `duration_seconds`
    /// later. Name, description and price are taken as they come. Record and
    /// counter are written together.
    ///
    /// The counter must have room for one more lease, and the end time must
    /// fit the ledger's 64-bit time: the registry has no answer for a request
    /// beyond either.
    pub fn create_lease(
        &mut self,
        asset_name: soroban_sdk::String,
        asset_desc: soroban_sdk::String,
        amount_xlm: i128,
        duration_seconds: u64,
        now: u64,
    ) -> (lease_id: u64)
        requires
            old(self)@.total() < u64::MAX,
            now + duration_seconds <= u64::MAX,
        ensures
            lease_id == old(self)@.total() + 1,
            lease_id == old(self)@.next_id(),
            final(self)@ == old(self)@.after_create(
                old(self).identity(),
                asset_name,
                asset_desc,
                amount_xlm,
                duration_seconds,
                now,
            ),
            final(self).identity() == old(self).identity(),
            old(self).wf() ==> final(self).wf(),
    {
        let mut lease_id: u64 = match self.store.counter() {
            Some(count) => count,
            None => 0,
        };
        lease_id += 1;
        let lease = Lease::new(
            lease_id,
            asset_name,
            asset_desc,
            self.identity.clone(),
            amount_xlm,
            duration_seconds,
            now,
        );
        self.store.set(Leasebook::Lease(lease_id), lease);
        self.store.set_counter(lease_id);
        lease_id
    }

    /// Assigns `lessee` to the lease `lease_id` at ledger time `now`.
    ///
    /// On success the record has the lessee and starts at `now`; its end time
    /// stays. The lessee may be the owner. The request is refused with
    /// `InvalidInput` where no such lease exists, and with `InvalidAction`
    /// where the lease has a lessee already or was returned; a refused
    /// request changes nothing.
    pub fn lease_asset(&mut self, lease_id: u64, lessee: Address, now: u64) -> (done: Result<
        (),
        LeaseError,
    >)
        ensures
            done == old(self)@.lease_result(lease_id),
            final(self)@ == old(self)@.after_lease(lease_id, lessee, now),
            final(self).identity() == old(self).identity(),
            old(self).wf() ==> final(self).wf(),
    {
        let mut lease = match self.view_lease(lease_id) {
            Ok(lease) => lease,
            Err(fault) => {
                return Err(fault);
            },
        };
        match lease.assign(lessee, now) {
            Ok(()) => {
                self.store.set(Leasebook::Lease(lease_id), lease);
                Ok(())
            },
            Err(fault) => Err(fault),
        }
    }

    /// Marks the asset of the lease `lease_id` as returned.
    ///
    /// On success the record is returned and no longer active, whether or not
    /// it ever had a lessee. The request is refused with `InvalidInput` where
    /// no such lease exists, and with `InvalidAction` where the lease is
    /// inactive or the asset was returned before; a refused request changes
    /// nothing.
    pub fn return_asset(&mut self, lease_id: u64) -> (done: Result<(), LeaseError>)
        ensures
            done == old(self)@.return_result(lease_id),
            final(self)@ == old(self)@.after_return(lease_id),
            final(self).identity() == old(self).identity(),
            old(self).wf() ==> final(self).wf(),
    {
        let mut lease = match self.view_lease(lease_id) {
            Ok(lease) => lease,
            Err(fault) => {
                return Err(fault);
            },
        };
        match lease.give_back() {
            Ok(()) => {
                self.store.set(Leasebook::Lease(lease_id), lease);
                Ok(())
            },
            Err(fault) => Err(fault),
        }
    }

    /// A copy of the record of the lease `lease_id`, or `InvalidInput` where
    /// no such lease exists.
    pub fn view_lease(&self, lease_id: u64) -> (found: Result<Lease, LeaseError>)
        ensures
            found == self@.view_result(lease_id),
    {
        match self.store.get(&Leasebook::Lease(lease_id)) {
            Some(lease) => Ok(lease),
            None => Err(LeaseError::InvalidInput),
        }
    }

    /// The number of leases created so far: 0 until the first creation.
    pub fn get_total_leases(&self) -> (total: u64)
        ensures
            total == self@.total(),
    {
        match self.store.counter() {
            Some(count) => count,
            None => 0,
        }
    }
}

} // verus!
