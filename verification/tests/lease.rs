use lease_contract::{Lease, LeaseError};
use soroban_sdk::testutils::{Address as _, EnvTestConfig};
use soroban_sdk::{Address, Env};

fn ledger() -> Env {
    Env::new_with_config(EnvTestConfig { capture_snapshot_at_drop: false })
}

fn sample(env: &Env) -> Lease {
    Lease::new(
        4,
        soroban_sdk::String::from_str(env, "Excavator"),
        soroban_sdk::String::from_str(env, "tracked, 8 t"),
        Address::generate(env),
        1_250,
        600,
        5_000,
    )
}

#[test]
fn new_record_is_active_and_unassigned() {
    let env = ledger();
    let owner = Address::generate(&env);
    let lease = Lease::new(
        9,
        soroban_sdk::String::from_str(&env, "Excavator"),
        soroban_sdk::String::from_str(&env, "tracked, 8 t"),
        owner.clone(),
        1_250,
        600,
        5_000,
    );
    assert_eq!(lease.lease_id, 9);
    assert_eq!(lease.asset_name, soroban_sdk::String::from_str(&env, "Excavator"));
    assert_eq!(lease.asset_desc, soroban_sdk::String::from_str(&env, "tracked, 8 t"));
    assert_eq!(lease.owner, owner);
    assert_eq!(lease.lessee, None);
    assert_eq!(lease.start_time, 5_000);
    assert_eq!(lease.end_time, 5_600);
    assert_eq!(lease.amount_xlm, 1_250);
    assert!(lease.is_active);
    assert!(!lease.is_returned);
}

#[test]
fn assign_sets_lessee_and_start_only() {
    let env = ledger();
    let mut lease = sample(&env);
    let before = lease.clone();
    let lessee = Address::generate(&env);
    assert_eq!(lease.assign(lessee.clone(), 5_100), Ok(()));
    let expected = Lease { lessee: Some(lessee), start_time: 5_100, ..before };
    assert_eq!(lease, expected);
}

#[test]
fn assign_is_refused_when_a_lessee_is_set() {
    let env = ledger();
    let mut lease = sample(&env);
    assert_eq!(lease.assign(Address::generate(&env), 5_100), Ok(()));
    let before = lease.clone();
    assert_eq!(lease.assign(Address::generate(&env), 5_200), Err(LeaseError::InvalidAction));
    assert_eq!(lease, before);
}

#[test]
fn assign_is_refused_when_inactive() {
    let env = ledger();
    let mut lease = sample(&env);
    lease.is_active = false;
    let before = lease.clone();
    assert_eq!(lease.assign(Address::generate(&env), 5_100), Err(LeaseError::InvalidAction));
    assert_eq!(lease, before);
}

#[test]
fn give_back_flips_both_flags_only() {
    let env = ledger();
    let mut lease = sample(&env);
    assert_eq!(lease.assign(Address::generate(&env), 5_100), Ok(()));
    let before = lease.clone();
    assert_eq!(lease.give_back(), Ok(()));
    let expected = Lease { is_active: false, is_returned: true, ..before };
    assert_eq!(lease, expected);
}

#[test]
fn give_back_is_refused_when_returned() {
    let env = ledger();
    let mut lease = sample(&env);
    assert_eq!(lease.give_back(), Ok(()));
    let before = lease.clone();
    assert_eq!(lease.give_back(), Err(LeaseError::InvalidAction));
    assert_eq!(lease, before);
}

#[test]
fn give_back_checks_the_active_flag_by_itself() {
    let env = ledger();
    let mut lease = sample(&env);
    lease.is_active = false;
    lease.is_returned = false;
    let before = lease.clone();
    assert_eq!(lease.give_back(), Err(LeaseError::InvalidAction));
    assert_eq!(lease, before);
}

#[test]
fn give_back_checks_the_returned_flag_by_itself() {
    let env = ledger();
    let mut lease = sample(&env);
    lease.is_active = true;
    lease.is_returned = true;
    let before = lease.clone();
    assert_eq!(lease.give_back(), Err(LeaseError::InvalidAction));
    assert_eq!(lease, before);
}

#[test]
fn clone_agrees_in_every_field() {
    let env = ledger();
    let mut lease = sample(&env);
    assert_eq!(lease.assign(Address::generate(&env), 5_100), Ok(()));
    let copy = lease.clone();
    assert_eq!(copy.lease_id, lease.lease_id);
    assert_eq!(copy.asset_name, lease.asset_name);
    assert_eq!(copy.asset_desc, lease.asset_desc);
    assert_eq!(copy.owner, lease.owner);
    assert_eq!(copy.lessee, lease.lessee);
    assert_eq!(copy.start_time, lease.start_time);
    assert_eq!(copy.end_time, lease.end_time);
    assert_eq!(copy.amount_xlm, lease.amount_xlm);
    assert_eq!(copy.is_active, lease.is_active);
    assert_eq!(copy.is_returned, lease.is_returned);
}

#[test]
fn clone_keeps_distinct_identities_apart() {
    let env = ledger();
    let lease = sample(&env);
    let other = Address::generate(&env);
    let copy = lease.clone();
    assert_eq!(copy.owner, lease.owner);
    assert_ne!(copy.owner, other);
    assert_ne!(copy.asset_name, soroban_sdk::String::from_str(&env, "Excavators"));
}
