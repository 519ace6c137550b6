//! System-wide laws, each proved from the operations' guard cascades,
//! their contracts and the counting model.

use vstd::prelude::*;

use crate::counting::{collections_unique, count_active_for, counts_consistent,
    lemma_active_position_counted, lemma_count_push, lemma_count_update};
use crate::ops::{admin_op_check, authority_op_check, claim_check, deactivated, stake_check,
    unlock_check};
use crate::policy::{EMERGENCY_DELAY, SIX_MONTHS, THREE_YEARS, TWELVE_MONTHS, spec_duration};
use crate::records::{AdminAccount, CollectionAccount, EmergencyRequest, StakingError,
    StakingPosition, StakingProgram};

verus! {

/// Each duration tier locks for exactly its fixed length: 180, 365 and
/// 1095 days in seconds.  Together with `stake_nft`'s contract, which
/// sets the unlock time to the stake time plus `spec_duration`, this pins
/// the lock period of every tier.
pub proof fn lemma_tier_durations()
    ensures
        spec_duration(0) == SIX_MONTHS,
        spec_duration(1) == TWELVE_MONTHS,
        spec_duration(2) == THREE_YEARS,
        SIX_MONTHS == 15552000,
        TWELVE_MONTHS == 31536000,
        THREE_YEARS == 94608000,
{
}

/// A duration tier outside 0, 1, 2 always fails the stake guards, on any
/// unpaused system and any collection.
pub proof fn lemma_invalid_tier_rejected(g: StakingProgram, c: CollectionAccount, duration: u8)
    requires
        !g.is_paused,
        duration > 2,
    ensures
        stake_check(g, c, duration) == Err::<(), StakingError>(StakingError::InvalidDuration),
{
}

/// An active position is claimable by its owner exactly from its unlock
/// time on: earlier the claim fails with `StakingPeriodNotCompleted`, and
/// from `unlock_at` on it passes every guard.
pub proof fn lemma_claim_gated_on_unlock_time(g: StakingProgram, p: StakingPosition, now: i64)
    requires
        !g.is_paused,
        p.is_active,
    ensures
        now < p.unlock_at ==> claim_check(g, p, p.owner, now) == Err::<(), StakingError>(
            StakingError::StakingPeriodNotCompleted,
        ),
        now >= p.unlock_at ==> claim_check(g, p, p.owner, now) is Ok,
{
}

/// A claim succeeds at most once: after a successful claim the position
/// is deactivated, and every later claim of it fails with
/// `PositionNotActive`, whoever calls and whenever.
pub proof fn lemma_claim_exactly_once(
    g1: StakingProgram,
    p: StakingPosition,
    caller: u64,
    now: i64,
    g2: StakingProgram,
    caller2: u64,
    now2: i64,
)
    requires
        claim_check(g1, p, caller, now) is Ok,
        !g2.is_paused,
    ensures
        claim_check(g2, deactivated(p), caller2, now2) == Err::<(), StakingError>(
            StakingError::PositionNotActive,
        ),
{
}

/// The two-phase emergency workflow.  With the guards satisfied and no
/// request standing, a call passes the guards (and, by `admin_unlock`'s
/// contract, only records the request — the asset does not move).  With
/// the pending request `req1` standing, a call before the mandatory
/// delay has elapsed fails with `EmergencyDelayNotMet`; from
/// `requested_at + EMERGENCY_DELAY` on it passes the guards and
/// executes.  Execution deactivates the position, so every later call
/// fails with `PositionNotActive`; the `EmergencyRequestAlreadyExecuted`
/// failure answers a call that finds the request executed while the
/// position is still active.
pub proof fn lemma_emergency_two_phase(
    g: StakingProgram,
    p: StakingPosition,
    req0: EmergencyRequest,
    req1: EmergencyRequest,
    req2: EmergencyRequest,
    a: AdminAccount,
    caller: u64,
    reason: Seq<char>,
    now: i64,
    now2: i64,
    now3: i64,
)
    requires
        !g.is_paused,
        a.admin == caller,
        reason.len() > 0,
        p.is_active,
        req0.phase is Absent,
        req1.phase is Pending,
        req1.requested_at == now,
        req2.phase is Executed,
        req2.requested_at == now,
    ensures
        unlock_check(g, p, req0, a, caller, reason, now) is Ok,
        now2 < now + EMERGENCY_DELAY ==> unlock_check(g, p, req1, a, caller, reason, now2)
            == Err::<(), StakingError>(StakingError::EmergencyDelayNotMet),
        now2 >= now + EMERGENCY_DELAY ==> unlock_check(g, p, req1, a, caller, reason, now2) is Ok,
        unlock_check(g, deactivated(p), req2, a, caller, reason, now3) == Err::<(), StakingError>(
            StakingError::PositionNotActive,
        ),
        now3 >= now + EMERGENCY_DELAY ==> unlock_check(g, p, req2, a, caller, reason, now3)
            == Err::<(), StakingError>(StakingError::EmergencyRequestAlreadyExecuted),
{
}

/// An empty reason fails the emergency-unlock guards whatever the
/// escalation record holds.
pub proof fn lemma_empty_reason_rejected(
    g: StakingProgram,
    p: StakingPosition,
    req: EmergencyRequest,
    a: AdminAccount,
    caller: u64,
    reason: Seq<char>,
    now: i64,
)
    requires
        !g.is_paused,
        a.admin == caller,
        reason.len() == 0,
    ensures
        unlock_check(g, p, req, a, caller, reason, now) == Err::<(), StakingError>(
            StakingError::ReasonRequired,
        ),
{
}

/// While the pause switch is set, every mutating operation's guard
/// cascade fails with `ContractPaused`: registering admins and
/// collections, staking, claiming, the emergency workflow, and the two
/// collection updates.  Only `pause_contract` and `unpause_contract`
/// stay available — their guard does not consult the pause flag.
pub proof fn lemma_pause_blocks_mutations(
    g: StakingProgram,
    c: CollectionAccount,
    p: StakingPosition,
    req: EmergencyRequest,
    a: AdminAccount,
    caller: u64,
    duration: u8,
    reason: Seq<char>,
    now: i64,
)
    requires
        g.is_paused,
    ensures
        authority_op_check(g, caller) == Err::<(), StakingError>(StakingError::ContractPaused),
        admin_op_check(g, a, caller) == Err::<(), StakingError>(StakingError::ContractPaused),
        stake_check(g, c, duration) == Err::<(), StakingError>(StakingError::ContractPaused),
        claim_check(g, p, caller, now) == Err::<(), StakingError>(StakingError::ContractPaused),
        unlock_check(g, p, req, a, caller, reason, now) == Err::<(), StakingError>(
            StakingError::ContractPaused,
        ),
{
}

/// Counter consistency is preserved by a stake.  If the counters agree
/// with the position ledger, and one stake appends the active position
/// `p` of collection `k` while raising the global total and collection
/// `k`'s total by one — exactly what `stake_nft`'s contract says — then
/// the counters agree with the grown ledger.
pub proof fn lemma_stake_preserves_consistency(
    g1: StakingProgram,
    g2: StakingProgram,
    cs1: Seq<CollectionAccount>,
    cs2: Seq<CollectionAccount>,
    ps1: Seq<StakingPosition>,
    p: StakingPosition,
    k: int,
)
    requires
        counts_consistent(g1, cs1, ps1),
        collections_unique(cs1),
        0 <= k < cs1.len(),
        p.is_active,
        p.collection_mint == cs1[k].collection_mint,
        g1.total_staked < u64::MAX,
        cs1[k].total_staked < u64::MAX,
        g2 == (StakingProgram { total_staked: (g1.total_staked + 1) as u64, ..g1 }),
        cs2 == cs1.update(
            k,
            CollectionAccount { total_staked: (cs1[k].total_staked + 1) as u64, ..cs1[k] },
        ),
    ensures
        counts_consistent(g2, cs2, ps1.push(p)),
{
    lemma_count_push(ps1, p, p.collection_mint);
    assert forall|i: int| 0 <= i < cs2.len() implies cs2[i].total_staked as int
        == count_active_for(ps1.push(p), cs2[i].collection_mint) by {
        lemma_count_push(ps1, p, cs2[i].collection_mint);
        if i != k {
            assert(cs1[i].collection_mint != cs1[k].collection_mint);
        }
    }
}

/// Counter consistency is preserved by registering a collection.  A new
/// collection starts with a zero counter, and no position can reference
/// it yet; the global position total does not move — exactly what
/// `add_collection`'s contract says.
pub proof fn lemma_add_collection_preserves_consistency(
    g1: StakingProgram,
    g2: StakingProgram,
    cs1: Seq<CollectionAccount>,
    ps: Seq<StakingPosition>,
    c: CollectionAccount,
)
    requires
        counts_consistent(g1, cs1, ps),
        c.total_staked == 0,
        count_active_for(ps, c.collection_mint) == 0,
        g2.total_staked == g1.total_staked,
    ensures
        counts_consistent(g2, cs1.push(c), ps),
{
}

/// Counter consistency is preserved by a claim or an executed emergency
/// unlock.  If the counters agree with the position ledger, and one
/// unlock deactivates the active position `i` of collection `k` while
/// lowering the global total and collection `k`'s total by one — exactly
/// what the contracts of `claim_nft` and of `admin_unlock`'s execution
/// step say — then the counters agree with the changed ledger.
pub proof fn lemma_unlock_preserves_consistency(
    g1: StakingProgram,
    g2: StakingProgram,
    cs1: Seq<CollectionAccount>,
    cs2: Seq<CollectionAccount>,
    ps1: Seq<StakingPosition>,
    i: int,
    k: int,
)
    requires
        counts_consistent(g1, cs1, ps1),
        collections_unique(cs1),
        0 <= i < ps1.len(),
        0 <= k < cs1.len(),
        ps1[i].is_active,
        ps1[i].collection_mint == cs1[k].collection_mint,
        g2 == (StakingProgram { total_staked: (g1.total_staked - 1) as u64, ..g1 }),
        cs2 == cs1.update(
            k,
            CollectionAccount { total_staked: (cs1[k].total_staked - 1) as u64, ..cs1[k] },
        ),
    ensures
        g1.total_staked >= 1,
        cs1[k].total_staked >= 1,
        counts_consistent(g2, cs2, ps1.update(i, deactivated(ps1[i]))),
{
    lemma_active_position_counted(ps1, i);
    lemma_count_update(ps1, i, deactivated(ps1[i]), ps1[i].collection_mint);
    assert forall|j: int| 0 <= j < cs2.len() implies cs2[j].total_staked as int
        == count_active_for(
        ps1.update(i, deactivated(ps1[i])),
        cs2[j].collection_mint,
    ) by {
        lemma_count_update(ps1, i, deactivated(ps1[i]), cs2[j].collection_mint);
        if j != k {
            assert(cs1[j].collection_mint != cs1[k].collection_mint);
        }
    }
}

} // verus!
