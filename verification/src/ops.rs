//! The staking operations: total state transitions over the records.
//!
//! Each operation takes the records it reads or mutates, the verified
//! caller identity and, where time matters, the host clock's reading.
//! Every failure is detected before any record changes, so a failed call
//! leaves every record exactly as it was.  A guard cascade is written
//! once, as a spec function, and each operation's contract says that it
//! returns exactly that cascade's error, or performs exactly the
//! transition, record field by record field.  The host performs the asset
//! movement that a successful result calls for, inside the same atomic
//! transaction, and delivers the returned notification.

use vstd::prelude::*;

use crate::policy::{EMERGENCY_DELAY, MAX_CLOCK, SIX_MONTH_MULTIPLIER, THREE_YEAR_MULTIPLIER,
    TWELVE_MONTH_MULTIPLIER, duration_for_tier, spec_duration};
use crate::records::{AdminAccount, CollectionAccount, CollectionAdded, CollectionUpdated,
    EmergencyOutcome, EmergencyRequest, EmergencyUnlock, NftClaimed, NftStaked, RequestPhase,
    StakingError, StakingPosition, StakingProgram};

verus! {

/// Creates the global configuration singleton: zeroed counters, unpaused.
/// The host's record-creation primitive rejects a second initialization.
pub fn initialize(authority: u64, multi_sig_threshold: u8) -> (g: StakingProgram)
    ensures
        g.authority == authority,
        g.multi_sig_threshold == multi_sig_threshold,
        g.total_staked == 0,
        g.total_collections == 0,
        !g.is_paused,
        g.paused_at == 0,
{
    StakingProgram {
        authority,
        multi_sig_threshold,
        total_staked: 0,
        total_collections: 0,
        is_paused: false,
        paused_at: 0,
    }
}

/// Guards of an authority-only registration: unpaused first, then the
/// caller must be the system authority.
pub open spec fn authority_op_check(g: StakingProgram, caller: u64) -> Result<(), StakingError> {
    if g.is_paused {
        Err(StakingError::ContractPaused)
    } else if caller != g.authority {
        Err(StakingError::Unauthorized)
    } else {
        Ok(())
    }
}

/// Guards of an admin-gated collection change: unpaused first, then the
/// caller must hold the given admin record.
pub open spec fn admin_op_check(
    g: StakingProgram,
    admin: AdminAccount,
    caller: u64,
) -> Result<(), StakingError> {
    if g.is_paused {
        Err(StakingError::ContractPaused)
    } else if admin.admin != caller {
        Err(StakingError::Unauthorized)
    } else {
        Ok(())
    }
}

/// Guard of the pause toggle: only that the caller holds the given admin
/// record.  The toggle itself is deliberately not gated on the pause
/// state, so it stays available while paused.
pub open spec fn pause_toggle_check(admin: AdminAccount, caller: u64) -> Result<
    (),
    StakingError,
> {
    if admin.admin != caller {
        Err(StakingError::Unauthorized)
    } else {
        Ok(())
    }
}

/// Guards of a stake: unpaused, a known duration tier, and an active
/// collection.
pub open spec fn stake_check(
    g: StakingProgram,
    c: CollectionAccount,
    duration: u8,
) -> Result<(), StakingError> {
    if g.is_paused {
        Err(StakingError::ContractPaused)
    } else if duration > 2 {
        Err(StakingError::InvalidDuration)
    } else if !c.is_active {
        Err(StakingError::CollectionNotActive)
    } else {
        Ok(())
    }
}

/// Guards of a claim: unpaused, the position still active, the caller its
/// owner, and the unlock time reached.
pub open spec fn claim_check(
    g: StakingProgram,
    p: StakingPosition,
    caller: u64,
    now: i64,
) -> Result<(), StakingError> {
    if g.is_paused {
        Err(StakingError::ContractPaused)
    } else if !p.is_active {
        Err(StakingError::PositionNotActive)
    } else if p.owner != caller {
        Err(StakingError::NotPositionOwner)
    } else if now < p.unlock_at {
        Err(StakingError::StakingPeriodNotCompleted)
    } else {
        Ok(())
    }
}

/// Guards of an emergency-unlock call: unpaused, caller holds the admin
/// record, a non-empty reason, the position still active; then, when a
/// request already stands, the mandatory delay must have elapsed and the
/// request must not have been executed yet.
pub open spec fn unlock_check(
    g: StakingProgram,
    p: StakingPosition,
    req: EmergencyRequest,
    admin: AdminAccount,
    caller: u64,
    reason: Seq<char>,
    now: i64,
) -> Result<(), StakingError> {
    if g.is_paused {
        Err(StakingError::ContractPaused)
    } else if admin.admin != caller {
        Err(StakingError::Unauthorized)
    } else if reason.len() == 0 {
        Err(StakingError::ReasonRequired)
    } else if !p.is_active {
        Err(StakingError::PositionNotActive)
    } else if req.phase is Absent {
        Ok(())
    } else if now < req.requested_at + EMERGENCY_DELAY {
        Err(StakingError::EmergencyDelayNotMet)
    } else if req.phase is Executed {
        Err(StakingError::EmergencyRequestAlreadyExecuted)
    } else {
        Ok(())
    }
}

/// The same position with its active flag cleared.
pub open spec fn deactivated(p: StakingPosition) -> StakingPosition {
    StakingPosition { is_active: false, ..p }
}

/// Registers one administrator, active and timestamped.  The host's
/// record-creation primitive rejects a duplicate identity.
pub fn add_admin(program: &StakingProgram, caller: u64, admin: u64, now: i64) -> (r: Result<
    AdminAccount,
    StakingError,
>)
    ensures
        (match r {
            Ok(a) => {
                &&& authority_op_check(*program, caller) is Ok
                &&& a.admin == admin
                &&& a.is_active
                &&& a.added_at == now
            },
            Err(e) => authority_op_check(*program, caller) == Err::<(), StakingError>(e),
        }),
{
    if program.is_paused {
        return Err(StakingError::ContractPaused);
    }
    if caller != program.authority {
        return Err(StakingError::Unauthorized);
    }
    Ok(AdminAccount { admin, is_active: true, added_at: now })
}

/// Registers one collection with its ticket table, the fixed multipliers,
/// active and not yet validated, and counts it in the global total.  The
/// host's record-creation primitive rejects a duplicate identity.
pub fn add_collection(
    program: &mut StakingProgram,
    caller: u64,
    collection_mint: u64,
    six_month_tickets: u64,
    twelve_month_tickets: u64,
    three_year_tickets: u64,
) -> (r: Result<(CollectionAccount, CollectionAdded), StakingError>)
    requires
        old(program).total_collections < u64::MAX,
    ensures
        (match r {
            Ok((c, ev)) => {
                &&& authority_op_check(*old(program), caller) is Ok
                &&& c.collection_mint == collection_mint
                &&& c.six_month_tickets == six_month_tickets
                &&& c.twelve_month_tickets == twelve_month_tickets
                &&& c.three_year_tickets == three_year_tickets
                &&& c.six_month_multiplier == SIX_MONTH_MULTIPLIER
                &&& c.twelve_month_multiplier == TWELVE_MONTH_MULTIPLIER
                &&& c.three_year_multiplier == THREE_YEAR_MULTIPLIER
                &&& c.is_active
                &&& !c.is_validated
                &&& c.total_staked == 0
                &&& ev == (CollectionAdded {
                    collection_mint,
                    six_month_tickets,
                    twelve_month_tickets,
                    three_year_tickets,
                })
                &&& *final(program) == (StakingProgram {
                    total_collections: (old(program).total_collections + 1) as u64,
                    ..*old(program)
                })
            },
            Err(e) => {
                &&& authority_op_check(*old(program), caller) == Err::<(), StakingError>(e)
                &&& *final(program) == *old(program)
            },
        }),
{
    if program.is_paused {
        return Err(StakingError::ContractPaused);
    }
    if caller != program.authority {
        return Err(StakingError::Unauthorized);
    }
    let collection = CollectionAccount {
        collection_mint,
        six_month_tickets,
        twelve_month_tickets,
        three_year_tickets,
        six_month_multiplier: SIX_MONTH_MULTIPLIER,
        twelve_month_multiplier: TWELVE_MONTH_MULTIPLIER,
        three_year_multiplier: THREE_YEAR_MULTIPLIER,
        is_active: true,
        is_validated: false,
        total_staked: 0,
    };
    program.total_collections = program.total_collections + 1;
    let event = CollectionAdded {
        collection_mint,
        six_month_tickets,
        twelve_month_tickets,
        three_year_tickets,
    };
    Ok((collection, event))
}

/// Stakes one asset into a collection for the chosen duration tier.  On
/// success the new position locks the asset until `now` plus the tier's
/// fixed length, both running totals rise by one, and the host must move
/// the asset into custodial holding before committing.
pub fn stake_nft(
    program: &mut StakingProgram,
    collection: &mut CollectionAccount,
    owner: u64,
    nft_mint: u64,
    duration: u8,
    now: i64,
) -> (r: Result<(StakingPosition, NftStaked), StakingError>)
    requires
        0 <= now <= MAX_CLOCK,
        old(program).total_staked < u64::MAX,
        old(collection).total_staked < u64::MAX,
    ensures
        (match r {
            Ok((p, ev)) => {
                &&& stake_check(*old(program), *old(collection), duration) is Ok
                &&& p.owner == owner
                &&& p.nft_mint == nft_mint
                &&& p.collection_mint == old(collection).collection_mint
                &&& p.staked_at == now
                &&& p.unlock_at == now + spec_duration(duration)
                &&& p.duration == duration
                &&& p.is_active
                &&& p.total_rewards_earned == 0
                &&& p.wf()
                &&& ev == (NftStaked {
                    user: owner,
                    nft_mint,
                    collection_mint: old(collection).collection_mint,
                    duration,
                    unlock_at: p.unlock_at,
                })
                &&& *final(program) == (StakingProgram {
                    total_staked: (old(program).total_staked + 1) as u64,
                    ..*old(program)
                })
                &&& *final(collection) == (CollectionAccount {
                    total_staked: (old(collection).total_staked + 1) as u64,
                    ..*old(collection)
                })
            },
            Err(e) => {
                &&& stake_check(*old(program), *old(collection), duration) == Err::<
                    (),
                    StakingError,
                >(e)
                &&& *final(program) == *old(program)
                &&& *final(collection) == *old(collection)
            },
        }),
{
    if program.is_paused {
        return Err(StakingError::ContractPaused);
    }
    if duration > 2 {
        return Err(StakingError::InvalidDuration);
    }
    if !collection.is_active {
        return Err(StakingError::CollectionNotActive);
    }
    let unlock_at = now + duration_for_tier(duration);
    let position = StakingPosition {
        owner,
        nft_mint,
        collection_mint: collection.collection_mint,
        staked_at: now,
        unlock_at,
        duration,
        is_active: true,
        total_rewards_earned: 0,
    };
    program.total_staked = program.total_staked + 1;
    collection.total_staked = collection.total_staked + 1;
    let event = NftStaked {
        user: owner,
        nft_mint,
        collection_mint: collection.collection_mint,
        duration,
        unlock_at,
    };
    Ok((position, event))
}

/// Claims a staked asset back once its unlock time has been reached.  The
/// position is deactivated before the host moves the asset, so a retried
/// transfer can never pay out twice; both running totals fall by one.
pub fn claim_nft(
    program: &mut StakingProgram,
    collection: &mut CollectionAccount,
    position: &mut StakingPosition,
    caller: u64,
    now: i64,
) -> (r: Result<NftClaimed, StakingError>)
    requires
        old(collection).collection_mint == old(position).collection_mint,
        old(position).is_active ==> old(program).total_staked >= 1 && old(
            collection,
        ).total_staked >= 1,
    ensures
        (match r {
            Ok(ev) => {
                &&& claim_check(*old(program), *old(position), caller, now) is Ok
                &&& *final(position) == deactivated(*old(position))
                &&& ev == (NftClaimed {
                    user: caller,
                    nft_mint: old(position).nft_mint,
                    collection_mint: old(position).collection_mint,
                })
                &&& *final(program) == (StakingProgram {
                    total_staked: (old(program).total_staked - 1) as u64,
                    ..*old(program)
                })
                &&& *final(collection) == (CollectionAccount {
                    total_staked: (old(collection).total_staked - 1) as u64,
                    ..*old(collection)
                })
            },
            Err(e) => {
                &&& claim_check(*old(program), *old(position), caller, now) == Err::<
                    (),
                    StakingError,
                >(e)
                &&& *final(program) == *old(program)
                &&& *final(collection) == *old(collection)
                &&& *final(position) == *old(position)
            },
        }),
{
    if program.is_paused {
        return Err(StakingError::ContractPaused);
    }
    if !position.is_active {
        return Err(StakingError::PositionNotActive);
    }
    if position.owner != caller {
        return Err(StakingError::NotPositionOwner);
    }
    if now < position.unlock_at {
        return Err(StakingError::StakingPeriodNotCompleted);
    }
    position.is_active = false;
    program.total_staked = program.total_staked - 1;
    collection.total_staked = collection.total_staked - 1;
    Ok(NftClaimed {
        user: caller,
        nft_mint: position.nft_mint,
        collection_mint: position.collection_mint,
    })
}

/// Requests, or after the mandatory delay executes, an emergency unlock
/// of one position.  The first call with no request standing only records
/// the request — the asset does not move.  A later call executes it once
/// the delay has elapsed: the position is deactivated, both running
/// totals fall by one, and the host must return the asset to the
/// position's owner, whoever made this call.  Execution is irreversible.
pub fn admin_unlock(
    program: &mut StakingProgram,
    collection: &mut CollectionAccount,
    position: &mut StakingPosition,
    request: &mut EmergencyRequest,
    admin_record: &AdminAccount,
    caller: u64,
    reason: String,
    now: i64,
) -> (r: Result<EmergencyOutcome, StakingError>)
    requires
        0 <= now <= MAX_CLOCK,
        old(collection).collection_mint == old(position).collection_mint,
        old(position).is_active ==> old(program).total_staked >= 1 && old(
            collection,
        ).total_staked >= 1,
        // The clock is monotonic: a standing request was recorded at an
        // earlier, non-negative reading.
        !(old(request).phase is Absent) ==> 0 <= old(request).requested_at <= now,
    ensures
        (match r {
            Ok(EmergencyOutcome::Requested) => {
                &&& unlock_check(
                    *old(program),
                    *old(position),
                    *old(request),
                    *admin_record,
                    caller,
                    reason@,
                    now,
                ) is Ok
                &&& old(request).phase is Absent
                &&& final(request).requester == caller
                &&& final(request).requested_at == now
                &&& final(request).reason@ == reason@
                &&& final(request).phase is Pending
                &&& *final(program) == *old(program)
                &&& *final(collection) == *old(collection)
                &&& *final(position) == *old(position)
            },
            Ok(EmergencyOutcome::Executed(ev)) => {
                &&& unlock_check(
                    *old(program),
                    *old(position),
                    *old(request),
                    *admin_record,
                    caller,
                    reason@,
                    now,
                ) is Ok
                &&& old(request).phase is Pending
                &&& final(request).phase is Executed
                &&& final(request).requester == old(request).requester
                &&& final(request).requested_at == old(request).requested_at
                &&& final(request).reason@ == old(request).reason@
                &&& *final(position) == deactivated(*old(position))
                &&& ev.admin == caller
                &&& ev.user == old(position).owner
                &&& ev.nft_mint == old(position).nft_mint
                &&& ev.reason@ == reason@
                &&& *final(program) == (StakingProgram {
                    total_staked: (old(program).total_staked - 1) as u64,
                    ..*old(program)
                })
                &&& *final(collection) == (CollectionAccount {
                    total_staked: (old(collection).total_staked - 1) as u64,
                    ..*old(collection)
                })
            },
            Err(e) => {
                &&& unlock_check(
                    *old(program),
                    *old(position),
                    *old(request),
                    *admin_record,
                    caller,
                    reason@,
                    now,
                ) == Err::<(), StakingError>(e)
                &&& *final(program) == *old(program)
                &&& *final(collection) == *old(collection)
                &&& *final(position) == *old(position)
                &&& *final(request) == *old(request)
            },
        }),
{
    if program.is_paused {
        return Err(StakingError::ContractPaused);
    }
    if admin_record.admin != caller {
        return Err(StakingError::Unauthorized);
    }
    if reason.as_str().is_empty() {
        return Err(StakingError::ReasonRequired);
    }
    if !position.is_active {
        return Err(StakingError::PositionNotActive);
    }
    if request.phase == RequestPhase::Absent {
        request.requester = caller;
        request.requested_at = now;
        request.reason = reason;
        request.phase = RequestPhase::Pending;
        return Ok(EmergencyOutcome::Requested);
    }
    if now < request.requested_at + EMERGENCY_DELAY {
        return Err(StakingError::EmergencyDelayNotMet);
    }
    if request.phase == RequestPhase::Executed {
        return Err(StakingError::EmergencyRequestAlreadyExecuted);
    }
    request.phase = RequestPhase::Executed;
    position.is_active = false;
    program.total_staked = program.total_staked - 1;
    collection.total_staked = collection.total_staked - 1;
    Ok(EmergencyOutcome::Executed(EmergencyUnlock {
        admin: caller,
        user: position.owner,
        nft_mint: position.nft_mint,
        reason,
    }))
}

/// Sets the pause switch and records when.  Gated only on the caller
/// holding an admin record; pausing an already paused system just
/// refreshes the timestamp.
pub fn pause_contract(
    program: &mut StakingProgram,
    admin_record: &AdminAccount,
    caller: u64,
    now: i64,
) -> (r: Result<(), StakingError>)
    ensures
        (match r {
            Ok(()) => {
                &&& pause_toggle_check(*admin_record, caller) is Ok
                &&& *final(program) == (StakingProgram {
                    is_paused: true,
                    paused_at: now,
                    ..*old(program)
                })
            },
            Err(e) => {
                &&& pause_toggle_check(*admin_record, caller) == Err::<(), StakingError>(e)
                &&& *final(program) == *old(program)
            },
        }),
{
    if admin_record.admin != caller {
        return Err(StakingError::Unauthorized);
    }
    program.is_paused = true;
    program.paused_at = now;
    Ok(())
}

/// Clears the pause switch and its timestamp.  Gated only on the caller
/// holding an admin record.
pub fn unpause_contract(
    program: &mut StakingProgram,
    admin_record: &AdminAccount,
    caller: u64,
) -> (r: Result<(), StakingError>)
    ensures
        (match r {
            Ok(()) => {
                &&& pause_toggle_check(*admin_record, caller) is Ok
                &&& *final(program) == (StakingProgram {
                    is_paused: false,
                    paused_at: 0,
                    ..*old(program)
                })
            },
            Err(e) => {
                &&& pause_toggle_check(*admin_record, caller) == Err::<(), StakingError>(e)
                &&& *final(program) == *old(program)
            },
        }),
{
    if admin_record.admin != caller {
        return Err(StakingError::Unauthorized);
    }
    program.is_paused = false;
    program.paused_at = 0;
    Ok(())
}

/// Overwrites a collection's three ticket counts.  The multipliers and
/// every other field stay as they were: they are immutable after
/// creation.
pub fn update_collection_rewards(
    program: &StakingProgram,
    collection: &mut CollectionAccount,
    admin_record: &AdminAccount,
    caller: u64,
    six_month_tickets: u64,
    twelve_month_tickets: u64,
    three_year_tickets: u64,
) -> (r: Result<CollectionUpdated, StakingError>)
    ensures
        (match r {
            Ok(ev) => {
                &&& admin_op_check(*program, *admin_record, caller) is Ok
                &&& *final(collection) == (CollectionAccount {
                    six_month_tickets,
                    twelve_month_tickets,
                    three_year_tickets,
                    ..*old(collection)
                })
                &&& ev == (CollectionUpdated {
                    collection_mint: old(collection).collection_mint,
                    six_month_tickets,
                    twelve_month_tickets,
                    three_year_tickets,
                })
            },
            Err(e) => {
                &&& admin_op_check(*program, *admin_record, caller) == Err::<(), StakingError>(e)
                &&& *final(collection) == *old(collection)
            },
        }),
{
    if program.is_paused {
        return Err(StakingError::ContractPaused);
    }
    if admin_record.admin != caller {
        return Err(StakingError::Unauthorized);
    }
    collection.six_month_tickets = six_month_tickets;
    collection.twelve_month_tickets = twelve_month_tickets;
    collection.three_year_tickets = three_year_tickets;
    Ok(CollectionUpdated {
        collection_mint: collection.collection_mint,
        six_month_tickets,
        twelve_month_tickets,
        three_year_tickets,
    })
}

/// Sets or clears a collection's advisory validation flag.  Nothing else
/// consults the flag.
pub fn validate_collection(
    program: &StakingProgram,
    collection: &mut CollectionAccount,
    admin_record: &AdminAccount,
    caller: u64,
    validated: bool,
) -> (r: Result<(), StakingError>)
    ensures
        (match r {
            Ok(()) => {
                &&& admin_op_check(*program, *admin_record, caller) is Ok
                &&& *final(collection) == (CollectionAccount {
                    is_validated: validated,
                    ..*old(collection)
                })
            },
            Err(e) => {
                &&& admin_op_check(*program, *admin_record, caller) == Err::<(), StakingError>(e)
                &&& *final(collection) == *old(collection)
            },
        }),
{
    if program.is_paused {
        return Err(StakingError::ContractPaused);
    }
    if admin_record.admin != caller {
        return Err(StakingError::Unauthorized);
    }
    collection.is_validated = validated;
    Ok(())
}

} // verus!
