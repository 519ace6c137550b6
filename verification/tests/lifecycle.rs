//! Stake/claim lifecycle: tier durations, the unlock gate, counter
//! consistency over operation sequences.

use naffles_staking::ops::{
    add_collection, claim_nft, initialize, stake_nft, update_collection_rewards,
    validate_collection,
};
use naffles_staking::policy::{SIX_MONTHS, THREE_YEARS, TWELVE_MONTHS};
use naffles_staking::records::{AdminAccount, CollectionAccount, StakingError};

const AUTHORITY: u64 = 1;
const USER: u64 = 9;

fn fresh_collection(
    program: &mut naffles_staking::records::StakingProgram,
    mint: u64,
) -> CollectionAccount {
    let (collection, _) = add_collection(program, AUTHORITY, mint, 10, 20, 30).unwrap();
    collection
}

#[test]
fn initialize_zeroes_everything() {
    let g = initialize(AUTHORITY, 3);
    assert_eq!(g.authority, AUTHORITY);
    assert_eq!(g.multi_sig_threshold, 3);
    assert_eq!(g.total_staked, 0);
    assert_eq!(g.total_collections, 0);
    assert!(!g.is_paused);
    assert_eq!(g.paused_at, 0);
}

#[test]
fn tier_durations_are_exact() {
    assert_eq!(SIX_MONTHS, 15_552_000);
    assert_eq!(TWELVE_MONTHS, 31_536_000);
    assert_eq!(THREE_YEARS, 94_608_000);
    let mut g = initialize(AUTHORITY, 1);
    for (tier, expected) in [(0u8, SIX_MONTHS), (1, TWELVE_MONTHS), (2, THREE_YEARS)] {
        let mut c = fresh_collection(&mut g, 100 + tier as u64);
        let (p, ev) = stake_nft(&mut g, &mut c, USER, 1000 + tier as u64, tier, 500).unwrap();
        assert_eq!(p.unlock_at - p.staked_at, expected);
        assert_eq!(ev.unlock_at, 500 + expected);
        assert_eq!(p.duration, tier);
    }
}

#[test]
fn invalid_tier_always_fails() {
    let mut g = initialize(AUTHORITY, 1);
    let mut c = fresh_collection(&mut g, 100);
    for tier in [3u8, 4, 255] {
        let r = stake_nft(&mut g, &mut c, USER, 1000, tier, 0);
        assert_eq!(r.unwrap_err(), StakingError::InvalidDuration);
    }
    assert_eq!(g.total_staked, 0);
    assert_eq!(c.total_staked, 0);
}

#[test]
fn stake_into_inactive_collection_fails() {
    let mut g = initialize(AUTHORITY, 1);
    let mut c = fresh_collection(&mut g, 100);
    c.is_active = false;
    let r = stake_nft(&mut g, &mut c, USER, 1000, 0, 0);
    assert_eq!(r.unwrap_err(), StakingError::CollectionNotActive);
}

#[test]
fn twelve_month_stake_claims_exactly_at_unlock() {
    // Stake at t=0 with tier 1 into a validated collection: unlock_at is
    // 31,536,000; a claim one second early fails, the claim at the unlock
    // time succeeds and takes both counters from 1 back to 0.
    let mut g = initialize(AUTHORITY, 1);
    let mut c = fresh_collection(&mut g, 100);
    let admin = AdminAccount { admin: 7, is_active: true, added_at: 0 };
    validate_collection(&g, &mut c, &admin, 7, true).unwrap();
    assert!(c.is_validated);
    let (mut p, ev) = stake_nft(&mut g, &mut c, USER, 1000, 1, 0).unwrap();
    assert_eq!(p.unlock_at, 31_536_000);
    assert_eq!(ev.user, USER);
    assert_eq!(g.total_staked, 1);
    assert_eq!(c.total_staked, 1);

    let early = claim_nft(&mut g, &mut c, &mut p, USER, 31_535_999);
    assert_eq!(early.unwrap_err(), StakingError::StakingPeriodNotCompleted);
    assert!(p.is_active);
    assert_eq!(g.total_staked, 1);

    let claimed = claim_nft(&mut g, &mut c, &mut p, USER, 31_536_000).unwrap();
    assert_eq!(claimed.user, USER);
    assert_eq!(claimed.nft_mint, 1000);
    assert!(!p.is_active);
    assert_eq!(g.total_staked, 0);
    assert_eq!(c.total_staked, 0);
}

#[test]
fn second_claim_fails_not_active() {
    let mut g = initialize(AUTHORITY, 1);
    let mut c = fresh_collection(&mut g, 100);
    let (mut p, _) = stake_nft(&mut g, &mut c, USER, 1000, 0, 0).unwrap();
    claim_nft(&mut g, &mut c, &mut p, USER, SIX_MONTHS).unwrap();
    let again = claim_nft(&mut g, &mut c, &mut p, USER, SIX_MONTHS + 1);
    assert_eq!(again.unwrap_err(), StakingError::PositionNotActive);
    assert_eq!(g.total_staked, 0);
    assert_eq!(c.total_staked, 0);
}

#[test]
fn claim_by_non_owner_fails() {
    let mut g = initialize(AUTHORITY, 1);
    let mut c = fresh_collection(&mut g, 100);
    let (mut p, _) = stake_nft(&mut g, &mut c, USER, 1000, 0, 0).unwrap();
    let r = claim_nft(&mut g, &mut c, &mut p, USER + 1, SIX_MONTHS);
    assert_eq!(r.unwrap_err(), StakingError::NotPositionOwner);
    assert!(p.is_active);
}

#[test]
fn counters_track_active_positions_through_sequences() {
    // After every operation on one collection, the collection counter and
    // the global counter both equal the number of active positions.
    let mut g = initialize(AUTHORITY, 1);
    let mut c = fresh_collection(&mut g, 100);
    let (mut p1, _) = stake_nft(&mut g, &mut c, USER, 1001, 0, 0).unwrap();
    assert_eq!((g.total_staked, c.total_staked), (1, 1));
    let (mut p2, _) = stake_nft(&mut g, &mut c, USER, 1002, 1, 10).unwrap();
    assert_eq!((g.total_staked, c.total_staked), (2, 2));
    let (p3, _) = stake_nft(&mut g, &mut c, 77, 1003, 2, 20).unwrap();
    assert_eq!((g.total_staked, c.total_staked), (3, 3));
    claim_nft(&mut g, &mut c, &mut p1, USER, SIX_MONTHS).unwrap();
    assert_eq!((g.total_staked, c.total_staked), (2, 2));
    // A failed claim leaves the counters alone.
    let r = claim_nft(&mut g, &mut c, &mut p2, USER, 11);
    assert_eq!(r.unwrap_err(), StakingError::StakingPeriodNotCompleted);
    assert_eq!((g.total_staked, c.total_staked), (2, 2));
    claim_nft(&mut g, &mut c, &mut p2, USER, 10 + TWELVE_MONTHS).unwrap();
    assert_eq!((g.total_staked, c.total_staked), (1, 1));
    let active = [p1.is_active, p2.is_active, p3.is_active]
        .iter()
        .filter(|a| **a)
        .count();
    assert_eq!(active as u64, g.total_staked);
}

#[test]
fn audit_confirms_and_refutes_counters() {
    let mut g = initialize(AUTHORITY, 1);
    let mut c1 = fresh_collection(&mut g, 100);
    let mut c2 = fresh_collection(&mut g, 200);
    let (mut p1, _) = stake_nft(&mut g, &mut c1, USER, 1001, 0, 0).unwrap();
    let (p2, _) = stake_nft(&mut g, &mut c1, USER, 1002, 1, 0).unwrap();
    let (p3, _) = stake_nft(&mut g, &mut c2, 77, 1003, 2, 0).unwrap();
    let collections = vec![c1, c2];
    let positions = vec![p1, p2, p3];
    assert!(naffles_staking::counting::audit_counts(&g, &collections, &positions));

    claim_nft(&mut g, &mut c1, &mut p1, USER, SIX_MONTHS).unwrap();
    // The stale copies no longer agree with the updated counters.
    assert!(!naffles_staking::counting::audit_counts(&g, &collections, &positions));
    let collections = vec![c1, c2];
    let positions = vec![p1, p2, p3];
    assert!(naffles_staking::counting::audit_counts(&g, &collections, &positions));

    // A counter nudged away from the ledger is caught.
    let mut drifted = g;
    drifted.total_staked += 1;
    assert!(!naffles_staking::counting::audit_counts(&drifted, &collections, &positions));
    let mut c1_drifted = c1;
    c1_drifted.total_staked += 1;
    let collections = vec![c1_drifted, c2];
    assert!(!naffles_staking::counting::audit_counts(&g, &collections, &positions));
}

#[test]
fn recount_matches_hand_count() {
    let mut g = initialize(AUTHORITY, 1);
    let mut c = fresh_collection(&mut g, 100);
    let (p1, _) = stake_nft(&mut g, &mut c, USER, 1001, 0, 0).unwrap();
    let (mut p2, _) = stake_nft(&mut g, &mut c, USER, 1002, 1, 0).unwrap();
    claim_nft(&mut g, &mut c, &mut p2, USER, TWELVE_MONTHS).unwrap();
    let positions = vec![p1, p2];
    assert_eq!(naffles_staking::counting::recount_active(&positions), 1);
    assert_eq!(
        naffles_staking::counting::recount_active_for(&positions, 100),
        1
    );
    assert_eq!(
        naffles_staking::counting::recount_active_for(&positions, 999),
        0
    );
}

#[test]
fn update_rewards_keeps_multipliers() {
    let mut g = initialize(AUTHORITY, 1);
    let mut c = fresh_collection(&mut g, 100);
    let admin = AdminAccount { admin: 7, is_active: true, added_at: 0 };
    let ev = update_collection_rewards(&g, &mut c, &admin, 7, 111, 222, 333).unwrap();
    assert_eq!(
        (c.six_month_tickets, c.twelve_month_tickets, c.three_year_tickets),
        (111, 222, 333)
    );
    assert_eq!(
        (
            c.six_month_multiplier,
            c.twelve_month_multiplier,
            c.three_year_multiplier
        ),
        (11_000, 12_500, 15_000)
    );
    assert_eq!(ev.collection_mint, 100);
    assert_eq!(ev.twelve_month_tickets, 222);
}
