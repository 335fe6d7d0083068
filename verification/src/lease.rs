//! One lease record and the transitions it can make.

use vstd::prelude::*;
use soroban_sdk::Address;
use crate::error::LeaseError;

verus! {

/// The record of one leasable asset and its lease.
///
/// A record starts out active, without a lessee and not returned. It can be
/// given a lessee once, and it can be returned once; a returned record is
/// inactive and takes no further change.
#[derive(Debug, PartialEq, Eq)]
pub struct Lease {
    /// The identifier under which the registry filed the record.
    pub lease_id: u64,
    /// Free-form name of the asset, fixed at creation.
    pub asset_name: soroban_sdk::String,
    /// Free-form description of the asset, fixed at creation.
    pub asset_desc: soroban_sdk::String,
    /// The identity that created the record, fixed at creation.
    pub owner: Address,
    /// The identity the asset is leased to, absent until it is assigned.
    pub lessee: Option<Address>,
    /// Ledger time of creation, replaced by the time of assignment once a
    /// lessee is set.
    pub start_time: u64,
    /// Ledger time of creation plus the duration asked for; assignment does
    /// not move it.
    pub end_time: u64,
    /// The price of the lease. Recorded only: any value is taken.
    pub amount_xlm: i128,
    /// True from creation until the asset is returned.
    pub is_active: bool,
    /// False from creation until the asset is returned.
    pub is_returned: bool,
}

impl Lease {
    /// The record that creation files: active, without a lessee, not
    /// returned, running from `now` for `duration_seconds`.
    pub open spec fn fresh(
        lease_id: u64,
        asset_name: soroban_sdk::String,
        asset_desc: soroban_sdk::String,
        owner: Address,
        amount_xlm: i128,
        duration_seconds: u64,
        now: u64,
    ) -> Lease {
        Lease {
            lease_id,
            asset_name,
            asset_desc,
            owner,
            lessee: None,
            start_time: now,
            end_time: (now + duration_seconds) as u64,
            amount_xlm,
            is_active: true,
            is_returned: false,
        }
    }

    /// Whether a lessee may be assigned: the record is active and has none.
    pub open spec fn can_be_leased(self) -> bool {
        self.is_active && self.lessee is None
    }

    /// Whether the asset may be returned: the record is active and the asset
    /// has not been returned before.
    pub open spec fn can_be_returned(self) -> bool {
        self.is_active && !self.is_returned
    }

    /// The record after `lessee` was assigned at ledger time `now`: the
    /// lessee is set and the start time is replaced; nothing else moves.
    pub open spec fn leased_to(self, lessee: Address, now: u64) -> Lease {
        Lease { lessee: Some(lessee), start_time: now, ..self }
    }

    /// The record after the asset was returned: both flags flip together.
    pub open spec fn returned(self) -> Lease {
        Lease { is_active: false, is_returned: true, ..self }
    }

    /// What holds of every record that the transitions of this module can
    /// reach from a fresh one: it is active exactly as long as it has not been
    /// returned, and until a lessee is assigned it ends no earlier than it
    /// starts.
    pub open spec fn consistent(self) -> bool {
        &&& self.is_active != self.is_returned
        &&& self.lessee is None ==> self.start_time <= self.end_time
    }

    /// Builds the record of a new lease.
    ///
    /// The sum of `now` and `duration_seconds` has to fit the ledger's
    /// 64-bit time: creation does not cope with a lease that would end
    /// beyond it.
    pub fn new(
        lease_id: u64,
        asset_name: soroban_sdk::String,
        asset_desc: soroban_sdk::String,
        owner: Address,
        amount_xlm: i128,
        duration_seconds: u64,
        now: u64,
    ) -> (lease: Lease)
        requires
            now + duration_seconds <= u64::MAX,
        ensures
            lease == Lease::fresh(
                lease_id,
                asset_name,
                asset_desc,
                owner,
                amount_xlm,
                duration_seconds,
                now,
            ),
            lease.end_time == now + duration_seconds,
            lease.consistent(),
    {
        Lease {
            lease_id,
            asset_name,
            asset_desc,
            owner,
            lessee: None,
            start_time: now,
            end_time: now + duration_seconds,
            amount_xlm,
            is_active: true,
            is_returned: false,
        }
    }

    /// Assigns `lessee` at ledger time `now`.
    ///
    /// Succeeds exactly when the record is active and has no lessee yet;
    /// otherwise the record stays as it was and the answer is
    /// `InvalidAction`. The lessee may be the owner.
    pub fn assign(&mut self, lessee: Address, now: u64) -> (done: Result<(), LeaseError>)
        ensures
            old(self).can_be_leased() ==> done is Ok && *final(self) == old(self).leased_to(
                lessee,
                now,
            ),
            !old(self).can_be_leased() ==> done == Err::<(), LeaseError>(LeaseError::InvalidAction)
                && *final(self) == *old(self),
            old(self).consistent() ==> final(self).consistent(),
    {
        if self.is_active && self.lessee.is_none() {
            self.lessee = Some(lessee);
            self.start_time = now;
            Ok(())
        } else {
            Err(LeaseError::InvalidAction)
        }
    }

    /// Marks the asset as returned.
    ///
    /// Succeeds exactly when the record is active and not yet returned,
    /// whether or not a lessee was ever assigned; otherwise the record stays
    /// as it was and the answer is `InvalidAction`.
    pub fn give_back(&mut self) -> (done: Result<(), LeaseError>)
        ensures
            old(self).can_be_returned() ==> done is Ok && *final(self) == old(self).returned(),
            !old(self).can_be_returned() ==> done == Err::<(), LeaseError>(
                LeaseError::InvalidAction,
            ) && *final(self) == *old(self),
            old(self).consistent() ==> final(self).consistent(),
    {
        if self.is_active && !self.is_returned {
            self.is_returned = true;
            self.is_active = false;
            Ok(())
        } else {
            Err(LeaseError::InvalidAction)
        }
    }
}

impl Clone for Lease {
    /// A copy that agrees with the record in every field.
    fn clone(&self) -> (copy: Lease)
        ensures
            copy == *self,
    {
        let lessee = match &self.lessee {
            Some(who) => Some(who.clone()),
            None => None,
        };
        Lease {
            lease_id: self.lease_id,
            asset_name: self.asset_name.clone(),
            asset_desc: self.asset_desc.clone(),
            owner: self.owner.clone(),
            lessee,
            start_time: self.start_time,
            end_time: self.end_time,
            amount_xlm: self.amount_xlm,
            is_active: self.is_active,
            is_returned: self.is_returned,
        }
    }
}

} // verus!
