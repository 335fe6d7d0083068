//! What holds of the registry over several operations.
//!
//! Every statement here is about the contents of a store and the outcomes
//! that the contracts of the registry's operations are written with, and is
//! proved from their definitions.

use vstd::prelude::*;
use soroban_sdk::Address;
use crate::error::LeaseError;
use crate::key::Leasebook;
use crate::lease::Lease;
use crate::state::StoreState;

verus! {

/// What a caller hands to one creation: the description of the asset, the
/// price, the duration, and the ledger time of the call.
pub struct LeaseRequest {
    /// Free-form name of the asset.
    pub asset_name: soroban_sdk::String,
    /// Free-form description of the asset.
    pub asset_desc: soroban_sdk::String,
    /// The price of the lease.
    pub amount_xlm: i128,
    /// How long the lease runs, in seconds.
    pub duration_seconds: u64,
    /// The ledger time at which the creation is asked for.
    pub now: u64,
}

impl LeaseRequest {
    /// Whether the lease that is asked for ends within the ledger's 64-bit
    /// time.
    pub open spec fn fits(self) -> bool {
        self.now + self.duration_seconds <= u64::MAX
    }
}

impl StoreState {
    /// The store after the creations in `requests`, made one after the other
    /// on behalf of `owner`.
    pub open spec fn after_creations(
        self,
        owner: Address,
        requests: Seq<LeaseRequest>,
    ) -> StoreState
        decreases requests.len(),
    {
        if requests.len() == 0 {
            self
        } else {
            let request = requests.last();
            self.after_creations(owner, requests.drop_last()).after_create(
                owner,
                request.asset_name,
                request.asset_desc,
                request.amount_xlm,
                request.duration_seconds,
                request.now,
            )
        }
    }
}

impl Lease {
    /// Whether `later` can be a later stage of this record: what creation
    /// fixed is the same, a lessee once set is still there, and a record
    /// once returned is still returned and inactive.
    pub open spec fn leads_to(self, later: Lease) -> bool {
        &&& later.lease_id == self.lease_id
        &&& later.asset_name == self.asset_name
        &&& later.asset_desc == self.asset_desc
        &&& later.owner == self.owner
        &&& later.end_time == self.end_time
        &&& later.amount_xlm == self.amount_xlm
        &&& self.lessee is Some ==> later.lessee == self.lessee
        &&& self.is_returned ==> later.is_returned
        &&& !self.is_active ==> !later.is_active
    }
}

impl StoreState {
    /// Whether `later` can be a later stage of this store: the counter has
    /// not gone down, every record is still there, and each is a later stage
    /// of what it was.
    pub open spec fn leads_to(self, later: StoreState) -> bool {
        &&& self.total() <= later.total()
        &&& forall|key: Leasebook| #[trigger]
            self.leases.dom().contains(key) ==> later.leases.dom().contains(key)
                && self.leases[key].leads_to(later.leases[key])
    }
}

/// The empty store is well formed.
pub proof fn law_empty_is_well_formed()
    ensures
        StoreState::empty().wf(),
        StoreState::empty().total() == 0,
{
}

/// A creation keeps a well-formed store well formed, and keeps every record
/// owned by `owner` if the records before were.
pub proof fn law_create_keeps_order(
    store: StoreState,
    owner: Address,
    asset_name: soroban_sdk::String,
    asset_desc: soroban_sdk::String,
    amount_xlm: i128,
    duration_seconds: u64,
    now: u64,
)
    requires
        store.wf(),
        store.total() < u64::MAX,
        now + duration_seconds <= u64::MAX,
    ensures
        store.after_create(owner, asset_name, asset_desc, amount_xlm, duration_seconds, now).wf(),
        store.owned_by(owner) ==> store.after_create(
            owner,
            asset_name,
            asset_desc,
            amount_xlm,
            duration_seconds,
            now,
        ).owned_by(owner),
{
}

/// An assignment and a return, granted or refused, keep a well-formed store
/// well formed and leave the owners as they are.
pub proof fn law_transitions_keep_order(
    store: StoreState,
    owner: Address,
    lease_id: u64,
    lessee: Address,
    now: u64,
)
    requires
        store.wf(),
    ensures
        store.after_lease(lease_id, lessee, now).wf(),
        store.after_return(lease_id).wf(),
        store.owned_by(owner) ==> store.after_lease(lease_id, lessee, now).owned_by(owner)
            && store.after_return(lease_id).owned_by(owner),
{
}

/// No operation takes anything back: after a creation, an assignment or a
/// return the counter is no lower, every record that was kept is still kept,
/// and what creation fixed in it, a lessee it had and a return it had made
/// are as before.
pub proof fn law_records_only_advance(
    store: StoreState,
    owner: Address,
    asset_name: soroban_sdk::String,
    asset_desc: soroban_sdk::String,
    amount_xlm: i128,
    duration_seconds: u64,
    now: u64,
    lease_id: u64,
    lessee: Address,
)
    requires
        store.wf(),
        store.total() < u64::MAX,
    ensures
        store.leads_to(
            store.after_create(owner, asset_name, asset_desc, amount_xlm, duration_seconds, now),
        ),
        store.leads_to(store.after_lease(lease_id, lessee, now)),
        store.leads_to(store.after_return(lease_id)),
{
}

/// Creations issue the identifiers 1, 2, 3, ... in the order of the calls:
/// starting from the empty store, the creation that follows `k` others issues
/// `k + 1`, and after all `n` of them the counter stands at `n`.
pub proof fn law_identifiers_in_sequence(owner: Address, requests: Seq<LeaseRequest>)
    requires
        requests.len() <= u64::MAX,
    ensures
        forall|k: int|
            0 <= k < requests.len() ==> (#[trigger] StoreState::empty().after_creations(
                owner,
                requests.take(k),
            )).next_id() == k + 1,
        StoreState::empty().after_creations(owner, requests).total() == requests.len(),
{
    assert forall|k: int| 0 <= k < requests.len() implies (#[trigger] StoreState::empty().after_creations(
        owner,
        requests.take(k),
    )).next_id() == k + 1 by {
        lemma_after_creations(owner, requests.take(k));
    }
    lemma_after_creations(owner, requests);
}

/// Creations alone keep the store in order: starting from the empty store,
/// after any run of creations whose end times fit the ledger's time the
/// identifiers in use are exactly 1 up to the number of creations, each
/// record is kept under its own identifier, and all are owned by `owner`.
pub proof fn law_creations_keep_order(owner: Address, requests: Seq<LeaseRequest>)
    requires
        requests.len() <= u64::MAX,
        forall|k: int| 0 <= k < requests.len() ==> (#[trigger] requests[k]).fits(),
    ensures
        StoreState::empty().after_creations(owner, requests).wf(),
        StoreState::empty().after_creations(owner, requests).owned_by(owner),
{
    lemma_after_creations(owner, requests);
}

/// Starting from the empty store, the counter after a run of creations is
/// the number of creations, as long as that number fits the counter; and the
/// store is in order if every request fits the ledger's time.
proof fn lemma_after_creations(owner: Address, requests: Seq<LeaseRequest>)
    requires
        requests.len() <= u64::MAX,
    ensures
        StoreState::empty().after_creations(owner, requests).total() == requests.len(),
        (forall|k: int| 0 <= k < requests.len() ==> (#[trigger] requests[k]).fits())
            ==> StoreState::empty().after_creations(owner, requests).wf()
            && StoreState::empty().after_creations(owner, requests).owned_by(owner),
    decreases requests.len(),
{
    if requests.len() > 0 {
        let earlier = requests.drop_last();
        lemma_after_creations(owner, earlier);
        if forall|k: int| 0 <= k < requests.len() ==> (#[trigger] requests[k]).fits() {
            assert forall|k: int| 0 <= k < earlier.len() implies (#[trigger] earlier[k]).fits() by {
                assert(earlier[k] == requests[k]);
            }
            assert(requests.last() == requests[requests.len() - 1]);
            assert(requests.last().fits());
        }
    }
}

/// A look at a lease right after its creation shows the record as it was
/// created: under the identifier that was issued, without a lessee, active,
/// not returned, and ending `duration_seconds` after it starts.
pub proof fn law_view_after_create(
    store: StoreState,
    owner: Address,
    asset_name: soroban_sdk::String,
    asset_desc: soroban_sdk::String,
    amount_xlm: i128,
    duration_seconds: u64,
    now: u64,
)
    requires
        store.total() < u64::MAX,
        now + duration_seconds <= u64::MAX,
    ensures
        ({
            let lease_id = (store.total() + 1) as u64;
            let after = store.after_create(
                owner,
                asset_name,
                asset_desc,
                amount_xlm,
                duration_seconds,
                now,
            );
            &&& after.view_result(lease_id) is Ok
            &&& after.view_result(lease_id) == Ok::<Lease, LeaseError>(
                Lease::fresh(
                    lease_id,
                    asset_name,
                    asset_desc,
                    owner,
                    amount_xlm,
                    duration_seconds,
                    now,
                ),
            )
            &&& after.record(lease_id).lessee is None
            &&& after.record(lease_id).is_active
            &&& !after.record(lease_id).is_returned
            &&& after.record(lease_id).start_time == now
            &&& after.record(lease_id).end_time == after.record(lease_id).start_time
                + duration_seconds
            &&& after.total() == lease_id
        }),
{
}

/// A lease takes a lessee once. Where a lease is active and has no lessee,
/// the assignment succeeds and sets the lessee. Whatever the first request
/// came to, a further assignment to the same lease, to whomever and whenever,
/// is refused with `InvalidAction` and changes nothing.
pub proof fn law_lease_only_once(
    store: StoreState,
    lease_id: u64,
    first: Address,
    first_time: u64,
    second: Address,
    second_time: u64,
)
    requires
        store.has(lease_id),
    ensures
        store.record(lease_id).can_be_leased() ==> store.lease_result(lease_id) is Ok
            && store.after_lease(lease_id, first, first_time).record(lease_id).lessee == Some(
            first,
        ) && store.after_lease(lease_id, first, first_time).record(lease_id).start_time
            == first_time,
        store.after_lease(lease_id, first, first_time).lease_result(lease_id) == Err::<
            (),
            LeaseError,
        >(LeaseError::InvalidAction),
        store.after_lease(lease_id, first, first_time).after_lease(lease_id, second, second_time)
            == store.after_lease(lease_id, first, first_time),
{
}

/// A returned asset cannot be leased. Where a lease is active and not
/// returned, the return succeeds and leaves it inactive and returned. After a
/// return was asked for, an assignment to the same lease is refused with
/// `InvalidAction` and changes nothing.
pub proof fn law_no_lease_after_return(
    store: StoreState,
    lease_id: u64,
    lessee: Address,
    now: u64,
)
    requires
        store.has(lease_id),
        store.record(lease_id).consistent(),
    ensures
        store.record(lease_id).can_be_returned() ==> store.return_result(lease_id) is Ok
            && !store.after_return(lease_id).record(lease_id).is_active && store.after_return(
            lease_id,
        ).record(lease_id).is_returned,
        store.after_return(lease_id).lease_result(lease_id) == Err::<(), LeaseError>(
            LeaseError::InvalidAction,
        ),
        store.after_return(lease_id).after_lease(lease_id, lessee, now) == store.after_return(
            lease_id,
        ),
{
}

/// An asset is returned once. Where a lease is active and not returned, the
/// return succeeds. Whatever the first request came to, a further return of
/// the same lease is refused with `InvalidAction` and changes nothing.
pub proof fn law_return_only_once(store: StoreState, lease_id: u64)
    requires
        store.has(lease_id),
    ensures
        store.record(lease_id).can_be_returned() ==> store.return_result(lease_id) is Ok,
        store.after_return(lease_id).return_result(lease_id) == Err::<(), LeaseError>(
            LeaseError::InvalidAction,
        ),
        store.after_return(lease_id).after_return(lease_id) == store.after_return(lease_id),
{
}

/// An identifier that was never issued names no lease: in a well-formed
/// store, a look, an assignment and a return under 0 or under a number above
/// the counter are all refused with `InvalidInput`, and change nothing.
pub proof fn law_unknown_identifier(store: StoreState, lease_id: u64, lessee: Address, now: u64)
    requires
        store.wf(),
        lease_id == 0 || lease_id > store.total(),
    ensures
        store.view_result(lease_id) == Err::<Lease, LeaseError>(LeaseError::InvalidInput),
        store.lease_result(lease_id) == Err::<(), LeaseError>(LeaseError::InvalidInput),
        store.return_result(lease_id) == Err::<(), LeaseError>(LeaseError::InvalidInput),
        store.after_lease(lease_id, lessee, now) == store,
        store.after_return(lease_id) == store,
{
}

} // verus!
