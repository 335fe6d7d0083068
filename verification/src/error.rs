//! The faults with which the registry refuses an operation.

use vstd::prelude::*;

verus! {

/// Why an operation on the registry was refused. A refused operation leaves
/// the registry exactly as it was.
#[derive(Clone, Copy, Debug, PartialEq, Eq, Structural)]
pub enum LeaseError {
    /// No lease is recorded under the identifier that was given.
    InvalidInput,
    /// The lease exists, but its state does not allow the transition asked
    /// for: it already has a lessee, or it has already been returned.
    InvalidAction,
}

} // verus!
