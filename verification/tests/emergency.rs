//! The two-phase emergency unlock: delay gating, idempotence, reasons.

use naffles_staking::ops::{add_collection, admin_unlock, initialize, stake_nft};
use naffles_staking::policy::EMERGENCY_DELAY;
use naffles_staking::records::{
    AdminAccount, CollectionAccount, EmergencyOutcome, EmergencyRequest, RequestPhase,
    StakingError, StakingPosition, StakingProgram,
};

const AUTHORITY: u64 = 1;
const ADMIN: u64 = 7;
const USER: u64 = 9;

struct World {
    g: StakingProgram,
    c: CollectionAccount,
    p: StakingPosition,
    req: EmergencyRequest,
    admin: AdminAccount,
}

fn staked_world() -> World {
    let mut g = initialize(AUTHORITY, 1);
    let (mut c, _) = add_collection(&mut g, AUTHORITY, 100, 10, 20, 30).unwrap();
    let (p, _) = stake_nft(&mut g, &mut c, USER, 1000, 2, 0).unwrap();
    World {
        g,
        c,
        p,
        req: EmergencyRequest::absent(),
        admin: AdminAccount { admin: ADMIN, is_active: true, added_at: 0 },
    }
}

#[test]
fn first_call_records_request_without_unlocking() {
    let mut w = staked_world();
    let r = admin_unlock(
        &mut w.g,
        &mut w.c,
        &mut w.p,
        &mut w.req,
        &w.admin,
        ADMIN,
        String::from("compromised key"),
        1000,
    )
    .unwrap();
    assert!(matches!(r, EmergencyOutcome::Requested));
    assert_eq!(w.req.phase, RequestPhase::Pending);
    assert_eq!(w.req.requester, ADMIN);
    assert_eq!(w.req.requested_at, 1000);
    assert_eq!(w.req.reason, "compromised key");
    // The asset did not move and no counter changed.
    assert!(w.p.is_active);
    assert_eq!(w.g.total_staked, 1);
    assert_eq!(w.c.total_staked, 1);
}

#[test]
fn request_executes_only_after_the_delay() {
    // Request at t=1000: a second call one second before the delay has
    // elapsed fails; at exactly 1000 + 86400 it succeeds and returns the
    // asset to the owner, although another admin made the second call.
    let mut w = staked_world();
    admin_unlock(
        &mut w.g,
        &mut w.c,
        &mut w.p,
        &mut w.req,
        &w.admin,
        ADMIN,
        String::from("recovery"),
        1000,
    )
    .unwrap();

    let early = admin_unlock(
        &mut w.g,
        &mut w.c,
        &mut w.p,
        &mut w.req,
        &w.admin,
        ADMIN,
        String::from("recovery"),
        1000 + EMERGENCY_DELAY - 1,
    );
    assert_eq!(early.unwrap_err(), StakingError::EmergencyDelayNotMet);
    assert!(w.p.is_active);
    assert_eq!(w.req.phase, RequestPhase::Pending);

    let other_admin = AdminAccount { admin: ADMIN + 1, is_active: true, added_at: 0 };
    let done = admin_unlock(
        &mut w.g,
        &mut w.c,
        &mut w.p,
        &mut w.req,
        &other_admin,
        ADMIN + 1,
        String::from("recovery"),
        1000 + EMERGENCY_DELAY,
    )
    .unwrap();
    match done {
        EmergencyOutcome::Executed(ev) => {
            assert_eq!(ev.user, USER);
            assert_eq!(ev.nft_mint, 1000);
            assert_eq!(ev.admin, ADMIN + 1);
            assert_eq!(ev.reason, "recovery");
        }
        EmergencyOutcome::Requested => panic!("expected execution"),
    }
    assert_eq!(w.req.phase, RequestPhase::Executed);
    assert!(!w.p.is_active);
    assert_eq!(w.g.total_staked, 0);
    assert_eq!(w.c.total_staked, 0);
}

#[test]
fn call_after_execution_fails_on_the_dead_position() {
    // Execution deactivates the position, so a further call fails its
    // position guard before ever reaching the executed request.
    let mut w = staked_world();
    admin_unlock(
        &mut w.g,
        &mut w.c,
        &mut w.p,
        &mut w.req,
        &w.admin,
        ADMIN,
        String::from("r"),
        0,
    )
    .unwrap();
    admin_unlock(
        &mut w.g,
        &mut w.c,
        &mut w.p,
        &mut w.req,
        &w.admin,
        ADMIN,
        String::from("r"),
        EMERGENCY_DELAY,
    )
    .unwrap();
    let again = admin_unlock(
        &mut w.g,
        &mut w.c,
        &mut w.p,
        &mut w.req,
        &w.admin,
        ADMIN,
        String::from("r"),
        2 * EMERGENCY_DELAY,
    );
    assert_eq!(again.unwrap_err(), StakingError::PositionNotActive);
}

#[test]
fn executed_request_on_live_position_fails_already_executed() {
    // A request already marked executed answers with its own error where
    // the position guard does not fire first.
    let mut w = staked_world();
    w.req = EmergencyRequest {
        requester: ADMIN,
        requested_at: 50,
        reason: String::from("r"),
        phase: RequestPhase::Executed,
    };
    let r = admin_unlock(
        &mut w.g,
        &mut w.c,
        &mut w.p,
        &mut w.req,
        &w.admin,
        ADMIN,
        String::from("r"),
        50 + EMERGENCY_DELAY,
    );
    assert_eq!(
        r.unwrap_err(),
        StakingError::EmergencyRequestAlreadyExecuted
    );
    assert!(w.p.is_active);
}

#[test]
fn empty_reason_fails_in_every_phase() {
    let mut w = staked_world();
    for phase in [RequestPhase::Absent, RequestPhase::Pending, RequestPhase::Executed] {
        w.req = EmergencyRequest {
            requester: ADMIN,
            requested_at: if matches!(phase, RequestPhase::Absent) { 0 } else { 10 },
            reason: String::new(),
            phase,
        };
        let r = admin_unlock(
            &mut w.g,
            &mut w.c,
            &mut w.p,
            &mut w.req,
            &w.admin,
            ADMIN,
            String::new(),
            1000,
        );
        assert_eq!(r.unwrap_err(), StakingError::ReasonRequired);
        assert!(w.p.is_active);
    }
}

#[test]
fn unlock_by_non_admin_fails() {
    let mut w = staked_world();
    let r = admin_unlock(
        &mut w.g,
        &mut w.c,
        &mut w.p,
        &mut w.req,
        &w.admin,
        USER,
        String::from("r"),
        0,
    );
    assert_eq!(r.unwrap_err(), StakingError::Unauthorized);
}

#[test]
fn absent_record_is_zeroed() {
    let req = EmergencyRequest::absent();
    assert_eq!(req.phase, RequestPhase::Absent);
    assert_eq!(req.requester, 0);
    assert_eq!(req.requested_at, 0);
    assert_eq!(req.reason, "");
}
