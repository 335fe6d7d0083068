use lease_contract::{Lease, LeaseContract, LeaseError, LeaseStore, Leasebook};
use soroban_sdk::testutils::{Address as _, EnvTestConfig};
use soroban_sdk::{Address, Env};

fn chain() -> Env {
    Env::new_with_config(EnvTestConfig { capture_snapshot_at_drop: false })
}

fn record(env: &Env, lease_id: u64, owner: &Address) -> Lease {
    Lease::new(
        lease_id,
        soroban_sdk::String::from_str(env, "Scooter"),
        soroban_sdk::String::from_str(env, "electric"),
        owner.clone(),
        25,
        900,
        40,
    )
}

#[test]
fn new_store_holds_nothing() {
    let store = LeaseStore::new();
    assert_eq!(store.counter(), None);
    assert_eq!(store.get(&Leasebook::Lease(0)), None);
    assert_eq!(store.get(&Leasebook::Lease(1)), None);
}

#[test]
fn set_counter_writes_the_counter_only() {
    let env = chain();
    let owner = Address::generate(&env);
    let mut store = LeaseStore::new();
    store.set(Leasebook::Lease(1), record(&env, 1, &owner));
    store.set_counter(1);
    assert_eq!(store.counter(), Some(1));
    store.set_counter(0);
    assert_eq!(store.counter(), Some(0));
    assert_eq!(store.get(&Leasebook::Lease(1)), Some(record(&env, 1, &owner)));
}

#[test]
fn set_keeps_a_record_under_its_key() {
    let env = chain();
    let owner = Address::generate(&env);
    let mut store = LeaseStore::new();
    store.set(Leasebook::Lease(3), record(&env, 3, &owner));
    assert_eq!(store.get(&Leasebook::Lease(3)), Some(record(&env, 3, &owner)));
    assert_eq!(store.get(&Leasebook::Lease(2)), None);
    assert_eq!(store.get(&Leasebook::Lease(4)), None);
    assert_eq!(store.counter(), None);
}

#[test]
fn set_replaces_what_was_there() {
    let env = chain();
    let owner = Address::generate(&env);
    let mut store = LeaseStore::new();
    store.set(Leasebook::Lease(3), record(&env, 3, &owner));
    let mut changed = record(&env, 3, &owner);
    changed.amount_xlm = 26;
    store.set(Leasebook::Lease(3), changed.clone());
    assert_eq!(store.get(&Leasebook::Lease(3)), Some(changed));
}

#[test]
fn a_registry_works_on_the_entries_it_is_opened_on() {
    let env = chain();
    let owner = Address::generate(&env);
    let lessee = Address::generate(&env);
    let mut store = LeaseStore::new();
    store.set_counter(7);
    store.set(Leasebook::Lease(3), record(&env, 3, &owner));

    let mut registry = LeaseContract::open(owner.clone(), store);
    assert_eq!(registry.get_total_leases(), 7);
    assert_eq!(registry.lease_asset(3, lessee.clone(), 55), Ok(()));
    let lease = registry.view_lease(3).unwrap();
    assert_eq!(lease.lessee, Some(lessee));
    assert_eq!(lease.start_time, 55);
    assert_eq!(lease.end_time, 940);
    assert_eq!(registry.view_lease(5), Err(LeaseError::InvalidInput));

    let id = registry.create_lease(
        soroban_sdk::String::from_str(&env, "Kayak"),
        soroban_sdk::String::from_str(&env, "two seats"),
        12,
        30,
        60,
    );
    assert_eq!(id, 8);
    assert_eq!(registry.get_total_leases(), 8);
    assert_eq!(registry.view_lease(8).unwrap().owner, owner);
    assert_eq!(registry.view_lease(8).unwrap().end_time, 90);
}

#[test]
fn a_registry_opened_on_an_unwritten_counter_starts_at_one() {
    let env = chain();
    let owner = Address::generate(&env);
    let mut registry = LeaseContract::open(owner, LeaseStore::new());
    assert_eq!(registry.get_total_leases(), 0);
    let id = registry.create_lease(
        soroban_sdk::String::from_str(&env, "Kayak"),
        soroban_sdk::String::from_str(&env, "two seats"),
        12,
        30,
        60,
    );
    assert_eq!(id, 1);
    assert_eq!(registry.get_total_leases(), 1);
}

#[test]
fn keys_compare_by_identifier() {
    assert_eq!(Leasebook::Lease(5), Leasebook::Lease(5));
    assert_ne!(Leasebook::Lease(5), Leasebook::Lease(6));
}

#[test]
fn the_two_faults_differ() {
    assert_ne!(LeaseError::InvalidInput, LeaseError::InvalidAction);
}

#[test]
fn the_last_identifier_can_be_issued() {
    let env = chain();
    let owner = Address::generate(&env);
    let mut store = LeaseStore::new();
    store.set_counter(u64::MAX - 1);
    let mut registry = LeaseContract::open(owner, store);
    let id = registry.create_lease(
        soroban_sdk::String::from_str(&env, "Kayak"),
        soroban_sdk::String::from_str(&env, "two seats"),
        12,
        30,
        60,
    );
    assert_eq!(id, u64::MAX);
    assert_eq!(registry.get_total_leases(), u64::MAX);
    assert_eq!(registry.view_lease(u64::MAX).unwrap().lease_id, u64::MAX);
    assert_eq!(registry.view_lease(u64::MAX - 1), Err(LeaseError::InvalidInput));
}

#[test]
fn a_counter_written_as_zero_reads_as_zero() {
    let env = chain();
    let mut store = LeaseStore::new();
    store.set_counter(0);
    let registry = LeaseContract::open(Address::generate(&env), store);
    assert_eq!(registry.get_total_leases(), 0);
}
