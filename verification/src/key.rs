//! The keys of the store.

use vstd::prelude::*;

verus! {

/// The key under which a record is kept.
#[derive(Clone, Copy, Debug, PartialEq, Eq, Structural)]
pub enum Leasebook {
    /// The record of the lease with the given identifier.
    Lease(u64),
}

impl Leasebook {
    /// The lease identifier that the key stands for.
    pub open spec fn id(self) -> u64 {
        match self {
            Leasebook::Lease(lease_id) => lease_id,
        }
    }
}

} // verus!
