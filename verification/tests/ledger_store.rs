//! The record store: lookups, duplicate rejection, and whole-system
//! behavior through the `Ledger`.

use naffles_staking::ledger::{Ledger, LedgerError};
use naffles_staking::policy::{EMERGENCY_DELAY, SIX_MONTHS, TWELVE_MONTHS};
use naffles_staking::records::{EmergencyOutcome, RequestPhase, StakingError};

const AUTHORITY: u64 = 1;
const ADMIN: u64 = 7;
const USER: u64 = 9;

fn staked_ledger() -> Ledger {
    let mut l = Ledger::new(AUTHORITY, 1);
    l.add_admin(AUTHORITY, ADMIN, 0).unwrap();
    l.add_collection(AUTHORITY, 100, 10, 20, 30).unwrap();
    l.stake_nft(USER, 1000, 100, 1, 0).unwrap();
    l
}

#[test]
fn new_ledger_is_empty() {
    let l = Ledger::new(AUTHORITY, 3);
    assert_eq!(l.program.authority, AUTHORITY);
    assert_eq!(l.program.total_staked, 0);
    assert_eq!(l.admins.len(), 0);
    assert_eq!(l.collections.len(), 0);
    assert_eq!(l.positions.len(), 0);
}

#[test]
fn duplicate_admin_is_rejected() {
    let mut l = Ledger::new(AUTHORITY, 1);
    l.add_admin(AUTHORITY, ADMIN, 5).unwrap();
    assert_eq!(
        l.add_admin(AUTHORITY, ADMIN, 6).unwrap_err(),
        LedgerError::AdminAlreadyExists
    );
    assert_eq!(
        l.add_admin(USER, ADMIN + 1, 6).unwrap_err(),
        LedgerError::Core(StakingError::Unauthorized)
    );
    assert_eq!(l.admins.len(), 1);
    assert_eq!(l.admins[0].added_at, 5);
}

#[test]
fn duplicate_collection_is_rejected() {
    let mut l = Ledger::new(AUTHORITY, 1);
    l.add_collection(AUTHORITY, 100, 1, 2, 3).unwrap();
    assert_eq!(
        l.add_collection(AUTHORITY, 100, 4, 5, 6).unwrap_err(),
        LedgerError::Core(StakingError::CollectionAlreadyExists)
    );
    assert_eq!(l.program.total_collections, 1);
    assert_eq!(l.collections[0].six_month_tickets, 1);
}

#[test]
fn stake_needs_a_registered_collection_and_a_fresh_key() {
    let mut l = staked_ledger();
    assert_eq!(
        l.stake_nft(USER, 2000, 999, 0, 10).unwrap_err(),
        LedgerError::Core(StakingError::CollectionNotFound)
    );
    assert_eq!(
        l.stake_nft(USER, 1000, 100, 0, 10).unwrap_err(),
        LedgerError::PositionAlreadyExists
    );
    assert_eq!(l.positions.len(), 1);
    assert_eq!(l.requests.len(), 1);
    assert_eq!(l.requests[0].phase, RequestPhase::Absent);
}

#[test]
fn ledger_claim_lifecycle() {
    let mut l = staked_ledger();
    assert_eq!(l.program.total_staked, 1);
    assert_eq!(l.collections[0].total_staked, 1);
    // A stranger claiming someone else's position is caught by the core.
    assert_eq!(
        l.claim_nft(77, 1000, USER, TWELVE_MONTHS).unwrap_err(),
        LedgerError::Core(StakingError::NotPositionOwner)
    );
    // A key nobody staked under is caught by the store.
    assert_eq!(
        l.claim_nft(USER, 1000, 77, TWELVE_MONTHS).unwrap_err(),
        LedgerError::PositionMissing
    );
    assert_eq!(
        l.claim_nft(USER, 1000, USER, TWELVE_MONTHS - 1).unwrap_err(),
        LedgerError::Core(StakingError::StakingPeriodNotCompleted)
    );
    let ev = l.claim_nft(USER, 1000, USER, TWELVE_MONTHS).unwrap();
    assert_eq!(ev.user, USER);
    assert_eq!(l.program.total_staked, 0);
    assert_eq!(l.collections[0].total_staked, 0);
    assert!(!l.positions[0].is_active);
    assert_eq!(
        l.claim_nft(USER, 1000, USER, TWELVE_MONTHS + 1).unwrap_err(),
        LedgerError::Core(StakingError::PositionNotActive)
    );
    // A claimed key stays taken: re-staking the same asset and owner
    // needs a new key.
    assert_eq!(
        l.stake_nft(USER, 1000, 100, 0, TWELVE_MONTHS + 1).unwrap_err(),
        LedgerError::PositionAlreadyExists
    );
}

#[test]
fn ledger_emergency_two_phase() {
    let mut l = staked_ledger();
    assert_eq!(
        l.admin_unlock(USER, 1000, USER, String::from("r"), 1000)
            .unwrap_err(),
        LedgerError::AdminMissing
    );
    let first = l
        .admin_unlock(ADMIN, 1000, USER, String::from("stolen key"), 1000)
        .unwrap();
    assert!(matches!(first, EmergencyOutcome::Requested));
    assert_eq!(l.requests[0].phase, RequestPhase::Pending);
    assert!(l.positions[0].is_active);
    assert_eq!(
        l.admin_unlock(ADMIN, 1000, USER, String::from("stolen key"), 1000 + EMERGENCY_DELAY - 1)
            .unwrap_err(),
        LedgerError::Core(StakingError::EmergencyDelayNotMet)
    );
    let second = l
        .admin_unlock(ADMIN, 1000, USER, String::from("stolen key"), 1000 + EMERGENCY_DELAY)
        .unwrap();
    match second {
        EmergencyOutcome::Executed(ev) => {
            assert_eq!(ev.user, USER);
            assert_eq!(ev.admin, ADMIN);
        }
        EmergencyOutcome::Requested => panic!("expected execution"),
    }
    assert_eq!(l.requests[0].phase, RequestPhase::Executed);
    assert!(!l.positions[0].is_active);
    assert_eq!(l.program.total_staked, 0);
    assert_eq!(l.collections[0].total_staked, 0);
}

#[test]
fn ledger_pause_blocks_staking() {
    let mut l = staked_ledger();
    l.pause_contract(ADMIN, 50).unwrap();
    assert!(l.program.is_paused);
    assert_eq!(
        l.stake_nft(USER, 2000, 100, 0, 60).unwrap_err(),
        LedgerError::Core(StakingError::ContractPaused)
    );
    assert_eq!(
        l.pause_contract(USER, 60).unwrap_err(),
        LedgerError::AdminMissing
    );
    l.unpause_contract(ADMIN).unwrap();
    assert!(!l.program.is_paused);
    l.stake_nft(USER, 2000, 100, 0, 60).unwrap();
    assert_eq!(l.program.total_staked, 2);
}

#[test]
fn ledger_collection_updates() {
    let mut l = staked_ledger();
    l.update_collection_rewards(ADMIN, 100, 11, 22, 33).unwrap();
    assert_eq!(l.collections[0].twelve_month_tickets, 22);
    assert_eq!(l.collections[0].twelve_month_multiplier, 12_500);
    l.validate_collection(ADMIN, 100, true).unwrap();
    assert!(l.collections[0].is_validated);
    assert_eq!(
        l.update_collection_rewards(ADMIN, 999, 1, 2, 3).unwrap_err(),
        LedgerError::Core(StakingError::CollectionNotFound)
    );
    assert_eq!(
        l.validate_collection(USER, 100, true).unwrap_err(),
        LedgerError::AdminMissing
    );
}

#[test]
fn ledger_audit_stays_green_through_a_sequence() {
    let mut l = staked_ledger();
    let ok = |l: &Ledger| {
        naffles_staking::counting::audit_counts(&l.program, &l.collections, &l.positions)
    };
    assert!(ok(&l));
    l.add_collection(AUTHORITY, 200, 1, 2, 3).unwrap();
    assert!(ok(&l));
    l.stake_nft(77, 2000, 200, 0, 10).unwrap();
    assert!(ok(&l));
    l.claim_nft(77, 2000, 77, 10 + SIX_MONTHS).unwrap();
    assert!(ok(&l));
    l.admin_unlock(ADMIN, 1000, USER, String::from("r"), 10 + SIX_MONTHS)
        .unwrap();
    assert!(ok(&l));
    l.admin_unlock(ADMIN, 1000, USER, String::from("r"), 10 + SIX_MONTHS + EMERGENCY_DELAY)
        .unwrap();
    assert!(ok(&l));
    assert_eq!(l.program.total_staked, 0);
}
