//! A registry of leasable assets and the life cycle of their leases.
//!
//! The registry issues lease identifiers in sequence, files one record per
//! lease, assigns a lessee to a record once and marks an asset as returned
//! once. The ledger that hosts the registry supplies the time and the
//! identities; the registry keeps what it is given and decides which
//! transitions are allowed.

pub mod error;
pub mod host;
pub mod key;
pub mod laws;
pub mod lease;
pub mod registry;
pub mod state;
pub mod store;

pub use error::LeaseError;
pub use key::Leasebook;
pub use lease::Lease;
pub use registry::LeaseContract;
pub use state::StoreState;
pub use store::LeaseStore;
