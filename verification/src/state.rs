//! What the registry keeps, as a mathematical value, and what each operation
//! makes of it.
//!
//! The operations of the registry are stated against this model: a counter
//! that may not have been written yet, and a map from key to record. Nothing
//! here runs.

use vstd::prelude::*;
use soroban_sdk::Address;
use crate::error::LeaseError;
use crate::key::Leasebook;
use crate::lease::Lease;

verus! {

/// The contents of a store: the lease counter, absent until the first lease
/// is created, and the record kept under each key.
pub struct StoreState {
    /// The lease counter as it was last written, if it ever was.
    pub counter: Option<u64>,
    /// The records, by key.
    pub leases: Map<Leasebook, Lease>,
}

impl StoreState {
    /// The store in which nothing was written yet.
    pub open spec fn empty() -> StoreState {
        StoreState { counter: None, leases: Map::empty() }
    }

    /// The number of leases created so far: the counter, read as 0 while it
    /// is absent. It is also the identifier that was issued last.
    pub open spec fn total(self) -> u64 {
        match self.counter {
            Some(count) => count,
            None => 0,
        }
    }

    /// Whether a record is kept under `lease_id`.
    pub open spec fn has(self, lease_id: u64) -> bool {
        self.leases.dom().contains(Leasebook::Lease(lease_id))
    }

    /// The record kept under `lease_id`, where there is one.
    pub open spec fn record(self, lease_id: u64) -> Lease {
        self.leases[Leasebook::Lease(lease_id)]
    }

    /// What holds of every store that the operations of the registry reach
    /// from the empty one.
    ///
    /// The identifiers in use are exactly 1 up to the counter, without gaps;
    /// each record carries the identifier of its key and is consistent in
    /// itself.
    pub open spec fn wf(self) -> bool {
        &&& forall|key: Leasebook| #[trigger]
            self.leases.dom().contains(key) <==> 1 <= key.id() <= self.total()
        &&& forall|key: Leasebook| #[trigger]
            self.leases.dom().contains(key) ==> {
                &&& self.leases[key].lease_id == key.id()
                &&& self.leases[key].consistent()
            }
    }

    /// Whether every record names `identity` as its owner.
    pub open spec fn owned_by(self, identity: Address) -> bool {
        forall|key: Leasebook| #[trigger]
            self.leases.dom().contains(key) ==> self.leases[key].owner == identity
    }

    /// The identifier that the next creation issues.
    pub open spec fn next_id(self) -> u64 {
        (self.total() + 1) as u64
    }

    /// The store with the record under `lease_id` set to `lease`.
    pub open spec fn with_record(self, lease_id: u64, lease: Lease) -> StoreState {
        StoreState {
            counter: self.counter,
            leases: self.leases.insert(Leasebook::Lease(lease_id), lease),
        }
    }

    /// The store after a creation on behalf of `owner`: the counter is one
    /// higher, and a fresh record stands under the new identifier.
    pub open spec fn after_create(
        self,
        owner: Address,
        asset_name: soroban_sdk::String,
        asset_desc: soroban_sdk::String,
        amount_xlm: i128,
        duration_seconds: u64,
        now: u64,
    ) -> StoreState {
        StoreState {
            counter: Some(self.next_id()),
            leases: self.leases.insert(
                Leasebook::Lease(self.next_id()),
                Lease::fresh(
                    self.next_id(),
                    asset_name,
                    asset_desc,
                    owner,
                    amount_xlm,
                    duration_seconds,
                    now,
                ),
            ),
        }
    }

    /// What a look at `lease_id` answers: the record, or `InvalidInput` where
    /// none is kept under it.
    pub open spec fn view_result(self, lease_id: u64) -> Result<Lease, LeaseError> {
        if self.has(lease_id) {
            Ok(self.record(lease_id))
        } else {
            Err(LeaseError::InvalidInput)
        }
    }

    /// What an assignment of a lessee to `lease_id` answers: `InvalidInput`
    /// where no record is kept, `InvalidAction` where the record is inactive
    /// or has a lessee, success otherwise.
    pub open spec fn lease_result(self, lease_id: u64) -> Result<(), LeaseError> {
        if !self.has(lease_id) {
            Err(LeaseError::InvalidInput)
        } else if !self.record(lease_id).can_be_leased() {
            Err(LeaseError::InvalidAction)
        } else {
            Ok(())
        }
    }

    /// The store after an assignment was asked for: the record has its lessee
    /// and its new start time where the assignment succeeds, and nothing has
    /// changed where it is refused.
    pub open spec fn after_lease(self, lease_id: u64, lessee: Address, now: u64) -> StoreState {
        if self.lease_result(lease_id) is Ok {
            self.with_record(lease_id, self.record(lease_id).leased_to(lessee, now))
        } else {
            self
        }
    }

    /// What a return of `lease_id` answers: `InvalidInput` where no record is
    /// kept, `InvalidAction` where the record is inactive or already
    /// returned, success otherwise.
    pub open spec fn return_result(self, lease_id: u64) -> Result<(), LeaseError> {
        if !self.has(lease_id) {
            Err(LeaseError::InvalidInput)
        } else if !self.record(lease_id).can_be_returned() {
            Err(LeaseError::InvalidAction)
        } else {
            Ok(())
        }
    }

    /// The store after a return was asked for: the record is returned and
    /// inactive where the return succeeds, and nothing has changed where it is
    /// refused.
    pub open spec fn after_return(self, lease_id: u64) -> StoreState {
        if self.return_result(lease_id) is Ok {
            self.with_record(lease_id, self.record(lease_id).returned())
        } else {
            self
        }
    }
}

} // verus!
