//! The four record families the staking core mutates, the notifications it
//! emits, and its error taxonomy.
//!
//! Identities (system authority, administrators, asset owners, asset and
//! collection identifiers) are values of the host ledger's address space;
//! the core never derives or inspects them, it only compares them, so each
//! is modelled as a plain 64-bit identifier.

use vstd::prelude::*;

use crate::policy::spec_duration;

verus! {

/// Singleton global configuration: system authority, pause switch and
/// running totals.
#[derive(Clone, Copy, Debug, PartialEq, Eq, Structural)]
pub struct StakingProgram {
    /// Identity allowed to register admins and collections.
    pub authority: u64,
    /// Stored approval threshold; reserved, no operation consults it.
    pub multi_sig_threshold: u8,
    /// Number of currently active staking positions, over all collections.
    pub total_staked: u64,
    /// Number of registered collections.
    pub total_collections: u64,
    /// While set, every mutating operation except pause and unpause fails.
    pub is_paused: bool,
    /// Clock reading of the most recent pause; 0 while unpaused.
    pub paused_at: i64,
}

/// One authorized administrator.
#[derive(Clone, Copy, Debug, PartialEq, Eq, Structural)]
pub struct AdminAccount {
    /// The administrator's identity.
    pub admin: u64,
    /// Set on creation; no operation clears it.
    pub is_active: bool,
    /// Clock reading when the administrator was added.
    pub added_at: i64,
}

/// One eligible asset collection: its reward-ticket table per duration
/// tier and its share of the active-position count.
#[derive(Clone, Copy, Debug, PartialEq, Eq, Structural)]
pub struct CollectionAccount {
    /// Identifier of the collection.
    pub collection_mint: u64,
    /// Reward tickets for a tier-0 stake.
    pub six_month_tickets: u64,
    /// Reward tickets for a tier-1 stake.
    pub twelve_month_tickets: u64,
    /// Reward tickets for a tier-2 stake.
    pub three_year_tickets: u64,
    /// Tier-0 multiplier in basis points; fixed at creation.
    pub six_month_multiplier: u64,
    /// Tier-1 multiplier in basis points; fixed at creation.
    pub twelve_month_multiplier: u64,
    /// Tier-2 multiplier in basis points; fixed at creation.
    pub three_year_multiplier: u64,
    /// Collections must be active to accept new stakes.
    pub is_active: bool,
    /// Advisory validation flag; the staking path does not consult it.
    pub is_validated: bool,
    /// Number of currently active positions referencing this collection.
    pub total_staked: u64,
}

/// One staked asset's lock: owner, timestamps, tier and status.
#[derive(Clone, Copy, Debug, PartialEq, Eq, Structural)]
pub struct StakingPosition {
    /// Identity that staked the asset and may claim it back.
    pub owner: u64,
    /// Identifier of the staked asset.
    pub nft_mint: u64,
    /// Collection the asset belongs to.
    pub collection_mint: u64,
    /// Clock reading at stake time.
    pub staked_at: i64,
    /// Earliest clock reading at which the owner may claim.
    pub unlock_at: i64,
    /// Duration tier chosen at stake time, one of 0, 1, 2.
    pub duration: u8,
    /// Cleared exactly once, on claim or on an executed emergency unlock.
    pub is_active: bool,
    /// Reserved rewards counter; no operation increments it.
    pub total_rewards_earned: u64,
}

impl StakingPosition {
    /// Well-formedness: a known duration tier, a non-negative stake
    /// time, and an unlock time that is exactly the stake time plus the
    /// tier's lock length.  Staking establishes this and nothing ever
    /// rewrites these fields.
    pub open spec fn wf(self) -> bool {
        &&& self.duration <= 2
        &&& 0 <= self.staked_at
        &&& self.unlock_at == self.staked_at + spec_duration(self.duration)
    }
}

/// Phase of a position's emergency escalation.
#[derive(Clone, Copy, Debug, PartialEq, Eq, Structural)]
pub enum RequestPhase {
    /// No emergency unlock has been requested.
    Absent,
    /// A request is recorded and waits out the mandatory delay.
    Pending,
    /// The request was executed; execution is irreversible.
    Executed,
}

/// The emergency-escalation record of one position.
#[derive(Clone, Debug)]
pub struct EmergencyRequest {
    /// Administrator who made the pending request.
    pub requester: u64,
    /// Clock reading of the pending request; 0 while absent.
    pub requested_at: i64,
    /// Reason given with the pending request.
    pub reason: String,
    /// Where the escalation stands.
    pub phase: RequestPhase,
}

impl EmergencyRequest {
    /// The record of a position for which no emergency unlock was ever
    /// requested.
    pub fn absent() -> (r: EmergencyRequest)
        ensures
            r.phase is Absent,
            r.requester == 0,
            r.requested_at == 0,
            r.reason@ == Seq::<char>::empty(),
    {
        EmergencyRequest {
            requester: 0,
            requested_at: 0,
            reason: String::new(),
            phase: RequestPhase::Absent,
        }
    }
}

/// Notification of a newly staked asset.
#[derive(Clone, Copy, Debug, PartialEq, Eq, Structural)]
pub struct NftStaked {
    pub user: u64,
    pub nft_mint: u64,
    pub collection_mint: u64,
    pub duration: u8,
    pub unlock_at: i64,
}

/// Notification of a claimed asset.
#[derive(Clone, Copy, Debug, PartialEq, Eq, Structural)]
pub struct NftClaimed {
    pub user: u64,
    pub nft_mint: u64,
    pub collection_mint: u64,
}

/// Notification of an executed emergency unlock.  The asset goes back to
/// the position's owner, whoever triggered the execution.
#[derive(Clone, Debug)]
pub struct EmergencyUnlock {
    pub admin: u64,
    pub user: u64,
    pub nft_mint: u64,
    pub reason: String,
}

/// Notification of a newly registered collection.
#[derive(Clone, Copy, Debug, PartialEq, Eq, Structural)]
pub struct CollectionAdded {
    pub collection_mint: u64,
    pub six_month_tickets: u64,
    pub twelve_month_tickets: u64,
    pub three_year_tickets: u64,
}

/// Notification of an updated collection ticket table.
#[derive(Clone, Copy, Debug, PartialEq, Eq, Structural)]
pub struct CollectionUpdated {
    pub collection_mint: u64,
    pub six_month_tickets: u64,
    pub twelve_month_tickets: u64,
    pub three_year_tickets: u64,
}

/// What a single emergency-unlock call did.
#[derive(Clone, Debug)]
pub enum EmergencyOutcome {
    /// A pending request was recorded; the asset did not move.
    Requested,
    /// The pending request was executed and the asset returned.
    Executed(EmergencyUnlock),
}

/// Every way an operation can fail.  Failures are detected before any
/// record changes, so a failed call leaves all records as they were.
#[derive(Clone, Copy, Debug, PartialEq, Eq, Structural)]
pub enum StakingError {
    /// The pause switch is set.
    ContractPaused,
    /// The duration tier is not one of 0, 1, 2.
    InvalidDuration,
    /// The referenced collection is not active.
    CollectionNotActive,
    /// The referenced position is not active.
    PositionNotActive,
    /// The caller is not the position's owner.
    NotPositionOwner,
    /// The unlock time has not been reached.
    StakingPeriodNotCompleted,
    /// An emergency action needs a non-empty reason.
    ReasonRequired,
    /// The mandatory emergency delay has not elapsed.
    EmergencyDelayNotMet,
    /// The emergency request was already executed.
    EmergencyRequestAlreadyExecuted,
    /// The caller lacks the required identity or role.
    Unauthorized,
    /// The recipient is not acceptable; kept for the host's use.
    InvalidRecipient,
    /// A collection with this identity already exists; raised by the
    /// host's duplicate-creation rejection.
    CollectionAlreadyExists,
    /// No collection with this identity exists; raised by the host's
    /// record lookup.
    CollectionNotFound,
    /// Too few approvals for a threshold-gated action; reserved.
    InsufficientMultiSigConfirmations,
}

} // verus!
