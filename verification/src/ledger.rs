//! The record store: every record family in one place, with the
//! counter-consistency invariant carried through every operation.
//!
//! Where the operations in `ops` are transitions over individual records,
//! the `Ledger` owns the whole system state — the configuration
//! singleton, the admin and collection registries, the position ledger
//! and the escalation records — and plays the hosting ledger's part:
//! looking records up by identity, rejecting duplicate creations, and
//! keying each escalation record to its position.  Its well-formedness
//! invariant holds after every call: the running totals always equal a
//! recount of the active positions, collection identities stay unique,
//! and at most one position record exists per asset and owner.  The host
//! around it only keeps the clock, moves the assets and delivers
//! notifications.

use vstd::prelude::*;

use crate::counting::{collections_unique, counts_consistent, lemma_active_position_counted,
    lemma_count_zero_when_unreferenced};
use crate::laws::{lemma_add_collection_preserves_consistency, lemma_stake_preserves_consistency,
    lemma_unlock_preserves_consistency};
use crate::ops;
use crate::ops::authority_op_check;
use crate::policy::{EMERGENCY_DELAY, MAX_CLOCK, spec_duration};
use crate::records::{AdminAccount, CollectionAccount, CollectionAdded, CollectionUpdated,
    EmergencyOutcome, EmergencyRequest, NftClaimed, NftStaked, StakingError, StakingPosition,
    StakingProgram};

verus! {

/// How a ledger call can fail: the core refused the transition, or the
/// record store itself did.
#[derive(Clone, Copy, Debug, PartialEq, Eq, Structural)]
pub enum LedgerError {
    /// A guard of the operation itself failed.
    Core(StakingError),
    /// An admin record with this identity already exists.
    AdminAlreadyExists,
    /// The caller holds no admin record.
    AdminMissing,
    /// A position record for this asset and owner already exists.
    PositionAlreadyExists,
    /// No position record for this asset and owner exists.
    PositionMissing,
    /// A running total would overflow its 64-bit counter.
    CounterSaturated,
}

/// Whether some collection record carries this identity.
pub open spec fn has_collection(cs: Seq<CollectionAccount>, collection_mint: u64) -> bool {
    exists|k: int| 0 <= k < cs.len() && cs[k].collection_mint == collection_mint
}

/// Whether some admin record carries this identity.
pub open spec fn has_admin(admins: Seq<AdminAccount>, admin: u64) -> bool {
    exists|k: int| 0 <= k < admins.len() && admins[k].admin == admin
}

/// Whether some position record is keyed by this asset and owner.
pub open spec fn has_position(ps: Seq<StakingPosition>, nft_mint: u64, owner: u64) -> bool {
    exists|i: int| 0 <= i < ps.len() && ps[i].nft_mint == nft_mint && ps[i].owner == owner
}

/// The whole system state.  The escalation record of `positions[i]` is
/// `requests[i]`.
#[derive(Clone, Debug)]
pub struct Ledger {
    /// The configuration singleton.
    pub program: StakingProgram,
    /// The admin registry, unique per admin identity.
    pub admins: Vec<AdminAccount>,
    /// The collection registry, unique per collection identity.
    pub collections: Vec<CollectionAccount>,
    /// One record per ever-staked asset, unique per asset and owner.
    pub positions: Vec<StakingPosition>,
    /// The escalation record of each position, index for index.
    pub requests: Vec<EmergencyRequest>,
    /// The latest clock reading any call has seen; the trusted clock
    /// is monotonic, so no later call sees an earlier one.
    pub last_clock: i64,
}

impl Ledger {
    /// Well-formedness, held after every call:
    /// the running totals agree with a recount of the active positions;
    /// admin and collection identities and position keys are unique;
    /// every position references a registered collection and carries a
    /// tier-consistent unlock time; escalation records line up with the
    /// positions, and none was requested in the future.
    pub open spec fn wf(self) -> bool {
        &&& counts_consistent(self.program, self.collections@, self.positions@)
        &&& collections_unique(self.collections@)
        &&& (forall|i: int, j: int|
            0 <= i < self.admins@.len() && 0 <= j < self.admins@.len() && i != j
                ==> self.admins@[i].admin != self.admins@[j].admin)
        &&& (forall|i: int, j: int|
            0 <= i < self.positions@.len() && 0 <= j < self.positions@.len() && i != j ==> !(
            self.positions@[i].nft_mint == self.positions@[j].nft_mint
                && self.positions@[i].owner == self.positions@[j].owner))
        &&& (forall|i: int|
            0 <= i < self.positions@.len() ==> has_collection(
                self.collections@,
                self.positions@[i].collection_mint,
            ))
        &&& (forall|i: int| 0 <= i < self.positions@.len() ==> self.positions@[i].wf())
        &&& self.requests@.len() == self.positions@.len()
        &&& (forall|i: int|
            0 <= i < self.requests@.len() && !(self.requests@[i].phase is Absent) ==> 0
                <= self.requests@[i].requested_at <= self.last_clock)
        &&& 0 <= self.last_clock <= MAX_CLOCK
    }

    /// A freshly initialized system: empty registries, zeroed counters,
    /// unpaused.
    pub fn new(authority: u64, multi_sig_threshold: u8) -> (l: Ledger)
        ensures
            l.wf(),
            l.program.authority == authority,
            l.program.multi_sig_threshold == multi_sig_threshold,
            l.program.total_staked == 0,
            l.program.total_collections == 0,
            !l.program.is_paused,
            l.program.paused_at == 0,
            l.admins@.len() == 0,
            l.collections@.len() == 0,
            l.positions@.len() == 0,
            l.last_clock == 0,
    {
        Ledger {
            program: ops::initialize(authority, multi_sig_threshold),
            admins: Vec::new(),
            collections: Vec::new(),
            positions: Vec::new(),
            requests: Vec::new(),
            last_clock: 0,
        }
    }

    /// Index of the admin record with this identity, if one exists.
    fn find_admin(&self, admin: u64) -> (r: Option<usize>)
        ensures
            (match r {
                Some(k) => k < self.admins@.len() && self.admins@[k as int].admin == admin,
                None => !has_admin(self.admins@, admin),
            }),
    {
        let mut k: usize = 0;
        while k < self.admins.len()
            invariant
                k <= self.admins@.len(),
                forall|j: int| 0 <= j < k ==> self.admins@[j].admin != admin,
            decreases self.admins@.len() - k,
        {
            if self.admins[k].admin == admin {
                return Some(k);
            }
            k = k + 1;
        }
        None
    }

    /// Index of the collection record with this identity, if one exists.
    fn find_collection(&self, collection_mint: u64) -> (r: Option<usize>)
        ensures
            (match r {
                Some(k) => k < self.collections@.len() && self.collections@[k as int].collection_mint
                    == collection_mint,
                None => !has_collection(self.collections@, collection_mint),
            }),
    {
        let mut k: usize = 0;
        while k < self.collections.len()
            invariant
                k <= self.collections@.len(),
                forall|j: int| 0 <= j < k ==> self.collections@[j].collection_mint != collection_mint,
            decreases self.collections@.len() - k,
        {
            if self.collections[k].collection_mint == collection_mint {
                return Some(k);
            }
            k = k + 1;
        }
        None
    }

    /// Index of the position record keyed by this asset and owner, if
    /// one exists.
    fn find_position(&self, nft_mint: u64, owner: u64) -> (r: Option<usize>)
        ensures
            (match r {
                Some(i) => i < self.positions@.len() && self.positions@[i as int].nft_mint
                    == nft_mint && self.positions@[i as int].owner == owner,
                None => !has_position(self.positions@, nft_mint, owner),
            }),
    {
        let mut i: usize = 0;
        while i < self.positions.len()
            invariant
                i <= self.positions@.len(),
                forall|j: int|
                    0 <= j < i ==> !(self.positions@[j].nft_mint == nft_mint
                        && self.positions@[j].owner == owner),
            decreases self.positions@.len() - i,
        {
            if self.positions[i].nft_mint == nft_mint && self.positions[i].owner == owner {
                return Some(i);
            }
            i = i + 1;
        }
        None
    }

    /// Registers an administrator: rejects a duplicate identity, then
    /// runs the core registration.
    pub fn add_admin(&mut self, caller: u64, admin: u64, now: i64) -> (r: Result<(), LedgerError>)
        requires
            old(self).wf(),
            old(self).last_clock <= now <= MAX_CLOCK,
        ensures
            final(self).wf(),
            (match r {
                Ok(()) => {
                    &&& !has_admin(old(self).admins@, admin)
                    &&& authority_op_check(old(self).program, caller) is Ok
                    &&& final(self).admins@ == old(self).admins@.push(
                        AdminAccount { admin, is_active: true, added_at: now },
                    )
                    &&& final(self).program == old(self).program
                    &&& final(self).collections@ == old(self).collections@
                    &&& final(self).positions@ == old(self).positions@
                    &&& final(self).requests@ == old(self).requests@
                    &&& final(self).last_clock == now
                },
                Err(LedgerError::AdminAlreadyExists) => has_admin(old(self).admins@, admin)
                    && *final(self) == *old(self),
                Err(LedgerError::Core(e)) => !has_admin(old(self).admins@, admin)
                    && authority_op_check(old(self).program, caller) == Err::<(), StakingError>(e)
                    && *final(self) == *old(self),
                Err(_) => false,
            }),
    {
        if self.find_admin(admin).is_some() {
            return Err(LedgerError::AdminAlreadyExists);
        }
        match ops::add_admin(&self.program, caller, admin, now) {
            Ok(record) => {
                proof {
                    assert(record == (AdminAccount { admin, is_active: true, added_at: now }));
                }
                self.admins.push(record);
                self.last_clock = now;
                Ok(())
            },
            Err(e) => Err(LedgerError::Core(e)),
        }
    }

    /// Registers a collection: rejects a duplicate identity, then runs
    /// the core registration and stores the new record.
    pub fn add_collection(
        &mut self,
        caller: u64,
        collection_mint: u64,
        six_month_tickets: u64,
        twelve_month_tickets: u64,
        three_year_tickets: u64,
    ) -> (r: Result<CollectionAdded, LedgerError>)
        requires
            old(self).wf(),
        ensures
            final(self).wf(),
            (match r {
                Ok(ev) => {
                    &&& !has_collection(old(self).collections@, collection_mint)
                    &&& authority_op_check(old(self).program, caller) is Ok
                    &&& final(self).collections@.len() == old(self).collections@.len() + 1
                    &&& final(self).collections@.last().collection_mint == collection_mint
                    &&& final(self).collections@.last().six_month_tickets == six_month_tickets
                    &&& final(self).collections@.last().twelve_month_tickets
                        == twelve_month_tickets
                    &&& final(self).collections@.last().three_year_tickets == three_year_tickets
                    &&& final(self).collections@.last().is_active
                    &&& !final(self).collections@.last().is_validated
                    &&& final(self).collections@.last().total_staked == 0
                    &&& final(self).collections@ == old(self).collections@.push(
                        final(self).collections@.last(),
                    )
                    &&& final(self).program == (StakingProgram {
                        total_collections: (old(self).program.total_collections + 1) as u64,
                        ..old(self).program
                    })
                    &&& ev == (CollectionAdded {
                        collection_mint,
                        six_month_tickets,
                        twelve_month_tickets,
                        three_year_tickets,
                    })
                    &&& final(self).positions@ == old(self).positions@
                    &&& final(self).requests@ == old(self).requests@
                    &&& final(self).admins@ == old(self).admins@
                    &&& final(self).last_clock == old(self).last_clock
                },
                Err(LedgerError::Core(StakingError::CollectionAlreadyExists)) => has_collection(
                    old(self).collections@,
                    collection_mint,
                ) && *final(self) == *old(self),
                Err(LedgerError::CounterSaturated) => old(self).program.total_collections
                    == u64::MAX && *final(self) == *old(self),
                Err(LedgerError::Core(e)) => !has_collection(old(self).collections@, collection_mint)
                    && authority_op_check(old(self).program, caller) == Err::<(), StakingError>(e)
                    && *final(self) == *old(self),
                Err(_) => false,
            }),
    {
        if self.find_collection(collection_mint).is_some() {
            return Err(LedgerError::Core(StakingError::CollectionAlreadyExists));
        }
        if self.program.total_collections == u64::MAX {
            return Err(LedgerError::CounterSaturated);
        }
        let ghost old_self = *self;
        match ops::add_collection(
            &mut self.program,
            caller,
            collection_mint,
            six_month_tickets,
            twelve_month_tickets,
            three_year_tickets,
        ) {
            Ok((collection, ev)) => {
                self.collections.push(collection);
                proof {
                    assert forall|i: int|
                        0 <= i < old_self.positions@.len()
                            implies old_self.positions@[i].collection_mint != collection_mint by {
                        if old_self.positions@[i].collection_mint == collection_mint {
                            assert(has_collection(old_self.collections@, collection_mint));
                        }
                    }
                    lemma_count_zero_when_unreferenced(old_self.positions@, collection_mint);
                    lemma_add_collection_preserves_consistency(
                        old_self.program,
                        self.program,
                        old_self.collections@,
                        old_self.positions@,
                        collection,
                    );
                    assert forall|i: int|
                        0 <= i < self.positions@.len() implies has_collection(
                        self.collections@,
                        self.positions@[i].collection_mint,
                    ) by {
                        let m = self.positions@[i].collection_mint;
                        let k = choose|k: int|
                            0 <= k < old_self.collections@.len()
                                && old_self.collections@[k].collection_mint == m;
                        assert(self.collections@[k].collection_mint == m);
                    }
                }
                Ok(ev)
            },
            Err(e) => Err(LedgerError::Core(e)),
        }
    }

    /// Stakes one asset: rejects a duplicate position key, locates the
    /// collection, runs the core transition, and stores the new position
    /// beside a fresh, absent escalation record.  The host must move the
    /// asset into custodial holding before committing.
    pub fn stake_nft(
        &mut self,
        caller: u64,
        nft_mint: u64,
        collection_mint: u64,
        duration: u8,
        now: i64,
    ) -> (r: Result<NftStaked, LedgerError>)
        requires
            old(self).wf(),
            old(self).last_clock <= now <= MAX_CLOCK,
        ensures
            final(self).wf(),
            (match r {
                Ok(ev) => {
                    &&& !has_position(old(self).positions@, nft_mint, caller)
                    &&& final(self).positions@.len() == old(self).positions@.len() + 1
                    &&& final(self).positions@.last().owner == caller
                    &&& final(self).positions@.last().nft_mint == nft_mint
                    &&& final(self).positions@.last().collection_mint == collection_mint
                    &&& final(self).positions@.last().staked_at == now
                    &&& final(self).positions@.last().unlock_at == now + spec_duration(duration)
                    &&& final(self).positions@.last().duration == duration
                    &&& final(self).positions@.last().is_active
                    &&& final(self).positions@ == old(self).positions@.push(
                        final(self).positions@.last(),
                    )
                    &&& final(self).requests@.len() == old(self).requests@.len() + 1
                    &&& final(self).requests@.last().phase is Absent
                    &&& final(self).program == (StakingProgram {
                        total_staked: (old(self).program.total_staked + 1) as u64,
                        ..old(self).program
                    })
                    &&& ev == (NftStaked {
                        user: caller,
                        nft_mint,
                        collection_mint,
                        duration,
                        unlock_at: final(self).positions@.last().unlock_at,
                    })
                    &&& (exists|k: int|
                        0 <= k < old(self).collections@.len() && old(self).collections@[k].collection_mint == collection_mint && final(self).collections@ == old(self).collections@.update(
                            k,
                            CollectionAccount {
                                total_staked: (old(self).collections@[k].total_staked + 1) as u64,
                                ..old(self).collections@[k]
                            },
                        ))
                    &&& final(self).admins@ == old(self).admins@
                    &&& final(self).last_clock == now
                },
                Err(LedgerError::PositionAlreadyExists) => has_position(
                    old(self).positions@,
                    nft_mint,
                    caller,
                ) && *final(self) == *old(self),
                Err(LedgerError::Core(StakingError::CollectionNotFound)) => !has_position(
                    old(self).positions@,
                    nft_mint,
                    caller,
                ) && !has_collection(old(self).collections@, collection_mint) && *final(self)
                    == *old(self),
                Err(LedgerError::CounterSaturated) => (old(self).program.total_staked == u64::MAX
                    || (exists|k: int|
                    0 <= k < old(self).collections@.len() && old(self).collections@[k].collection_mint == collection_mint && old(self).collections@[k].total_staked == u64::MAX)) && *final(self) == *old(self),
                Err(LedgerError::Core(e)) => (exists|k: int|
                    0 <= k < old(self).collections@.len() && old(self).collections@[k].collection_mint == collection_mint && ops::stake_check(
                        old(self).program,
                        old(self).collections@[k],
                        duration,
                    ) == Err::<(), StakingError>(e)) && *final(self) == *old(self),
                Err(_) => false,
            }),
    {
        if self.find_position(nft_mint, caller).is_some() {
            return Err(LedgerError::PositionAlreadyExists);
        }
        let k = match self.find_collection(collection_mint) {
            None => {
                return Err(LedgerError::Core(StakingError::CollectionNotFound));
            },
            Some(k) => k,
        };
        if self.program.total_staked == u64::MAX || self.collections[k].total_staked == u64::MAX {
            return Err(LedgerError::CounterSaturated);
        }
        let ghost old_self = *self;
        let mut collection = self.collections[k];
        match ops::stake_nft(&mut self.program, &mut collection, caller, nft_mint, duration, now) {
            Ok((position, ev)) => {
                self.collections[k] = collection;
                self.positions.push(position);
                self.requests.push(EmergencyRequest::absent());
                self.last_clock = now;
                proof {
                    lemma_stake_preserves_consistency(
                        old_self.program,
                        self.program,
                        old_self.collections@,
                        self.collections@,
                        old_self.positions@,
                        position,
                        k as int,
                    );
                    assert forall|i: int|
                        0 <= i < self.positions@.len() implies has_collection(
                        self.collections@,
                        self.positions@[i].collection_mint,
                    ) by {
                        if i < old_self.positions@.len() {
                            let m = old_self.positions@[i].collection_mint;
                            let k0 = choose|k0: int|
                                0 <= k0 < old_self.collections@.len()
                                    && old_self.collections@[k0].collection_mint == m;
                            assert(self.collections@[k0].collection_mint == m);
                        } else {
                            assert(self.collections@[k as int].collection_mint
                                == position.collection_mint);
                        }
                    }
                }
                Ok(ev)
            },
            Err(e) => Err(LedgerError::Core(e)),
        }
    }

    /// Claims the asset of the position keyed by `nft_mint` and `owner`
    /// back for `caller`.  On success the host must return the asset to
    /// the caller before committing.
    pub fn claim_nft(&mut self, caller: u64, nft_mint: u64, owner: u64, now: i64) -> (r: Result<
        NftClaimed,
        LedgerError,
    >)
        requires
            old(self).wf(),
            old(self).last_clock <= now <= MAX_CLOCK,
        ensures
            final(self).wf(),
            (match r {
                Ok(ev) => (exists|i: int, k: int|
                    {
                        &&& 0 <= i < old(self).positions@.len()
                        &&& old(self).positions@[i].nft_mint == nft_mint
                        &&& old(self).positions@[i].owner == owner
                        &&& ops::claim_check(
                            old(self).program,
                            old(self).positions@[i],
                            caller,
                            now,
                        ) is Ok
                        &&& final(self).positions@ == old(self).positions@.update(
                            i,
                            ops::deactivated(old(self).positions@[i]),
                        )
                        &&& ev == (NftClaimed {
                            user: caller,
                            nft_mint: old(self).positions@[i].nft_mint,
                            collection_mint: old(self).positions@[i].collection_mint,
                        })
                        &&& 0 <= k < old(self).collections@.len()
                        &&& old(self).collections@[k].collection_mint == old(self).positions@[i].collection_mint
                        &&& final(self).collections@ == old(self).collections@.update(
                            k,
                            CollectionAccount {
                                total_staked: (old(self).collections@[k].total_staked - 1) as u64,
                                ..old(self).collections@[k]
                            },
                        )
                    }) && final(self).program == (StakingProgram {
                    total_staked: (old(self).program.total_staked - 1) as u64,
                    ..old(self).program
                }) && final(self).requests@ == old(self).requests@ && final(self).admins@ == old(self).admins@ && final(self).last_clock == now,
                Err(LedgerError::PositionMissing) => !has_position(
                    old(self).positions@,
                    nft_mint,
                    owner,
                ) && *final(self) == *old(self),
                Err(LedgerError::Core(e)) => (exists|i: int|
                    0 <= i < old(self).positions@.len() && old(self).positions@[i].nft_mint
                        == nft_mint && old(self).positions@[i].owner == owner && ops::claim_check(
                        old(self).program,
                        old(self).positions@[i],
                        caller,
                        now,
                    ) == Err::<(), StakingError>(e)) && *final(self) == *old(self),
                Err(_) => false,
            }),
    {
        let i = match self.find_position(nft_mint, owner) {
            None => {
                return Err(LedgerError::PositionMissing);
            },
            Some(i) => i,
        };
        let mint = self.positions[i].collection_mint;
        let k = match self.find_collection(mint) {
            None => {
                proof {
                    assert(false);
                }
                return Err(LedgerError::PositionMissing);
            },
            Some(k) => k,
        };
        let ghost old_self = *self;
        let mut position = self.positions[i];
        let mut collection = self.collections[k];
        proof {
            if old_self.positions@[i as int].is_active {
                lemma_active_position_counted(old_self.positions@, i as int);
            }
        }
        match ops::claim_nft(&mut self.program, &mut collection, &mut position, caller, now) {
            Ok(ev) => {
                self.positions[i] = position;
                self.collections[k] = collection;
                self.last_clock = now;
                proof {
                    lemma_unlock_preserves_consistency(
                        old_self.program,
                        self.program,
                        old_self.collections@,
                        self.collections@,
                        old_self.positions@,
                        i as int,
                        k as int,
                    );
                    assert forall|j: int|
                        0 <= j < self.positions@.len() implies has_collection(
                        self.collections@,
                        self.positions@[j].collection_mint,
                    ) by {
                        let m = old_self.positions@[j].collection_mint;
                        let k0 = choose|k0: int|
                            0 <= k0 < old_self.collections@.len()
                                && old_self.collections@[k0].collection_mint == m;
                        assert(self.collections@[k0].collection_mint == m);
                        assert(self.positions@[j].collection_mint == m);
                    }
                }
                Ok(ev)
            },
            Err(e) => Err(LedgerError::Core(e)),
        }
    }

    /// Requests, or after the delay executes, an emergency unlock of the
    /// position keyed by `nft_mint` and `owner`; the caller must hold an
    /// admin record.  On execution the host must return the asset to the
    /// position's owner before committing.
    pub fn admin_unlock(
        &mut self,
        caller: u64,
        nft_mint: u64,
        owner: u64,
        reason: String,
        now: i64,
    ) -> (r: Result<EmergencyOutcome, LedgerError>)
        requires
            old(self).wf(),
            old(self).last_clock <= now <= MAX_CLOCK,
        ensures
            final(self).wf(),
            final(self).admins@ == old(self).admins@,
            (match r {
                Ok(EmergencyOutcome::Requested) => (exists|i: int|
                    {
                        &&& 0 <= i < old(self).positions@.len()
                        &&& old(self).positions@[i].nft_mint == nft_mint
                        &&& old(self).positions@[i].owner == owner
                        &&& old(self).requests@[i].phase is Absent
                        &&& final(self).requests@ == old(self).requests@.update(
                            i,
                            final(self).requests@[i],
                        )
                        &&& final(self).requests@[i].phase is Pending
                        &&& final(self).requests@[i].requester == caller
                        &&& final(self).requests@[i].requested_at == now
                        &&& final(self).requests@[i].reason@ == reason@
                    }) && has_admin(old(self).admins@, caller) && final(self).positions@ == old(self).positions@ && final(self).collections@ == old(self).collections@ && final(self).program == old(self).program && final(self).last_clock == now,
                Ok(EmergencyOutcome::Executed(ev)) => (exists|i: int, k: int|
                    {
                        &&& 0 <= i < old(self).positions@.len()
                        &&& old(self).positions@[i].nft_mint == nft_mint
                        &&& old(self).positions@[i].owner == owner
                        &&& old(self).requests@[i].phase is Pending
                        &&& now >= old(self).requests@[i].requested_at + EMERGENCY_DELAY
                        &&& final(self).requests@ == old(self).requests@.update(
                            i,
                            final(self).requests@[i],
                        )
                        &&& final(self).requests@[i].phase is Executed
                        &&& final(self).positions@ == old(self).positions@.update(
                            i,
                            ops::deactivated(old(self).positions@[i]),
                        )
                        &&& ev.user == old(self).positions@[i].owner
                        &&& ev.nft_mint == old(self).positions@[i].nft_mint
                        &&& ev.admin == caller
                        &&& ev.reason@ == reason@
                        &&& 0 <= k < old(self).collections@.len()
                        &&& old(self).collections@[k].collection_mint == old(self).positions@[i].collection_mint
                        &&& final(self).collections@ == old(self).collections@.update(
                            k,
                            CollectionAccount {
                                total_staked: (old(self).collections@[k].total_staked - 1) as u64,
                                ..old(self).collections@[k]
                            },
                        )
                    }) && has_admin(old(self).admins@, caller) && final(self).program
                    == (StakingProgram {
                    total_staked: (old(self).program.total_staked - 1) as u64,
                    ..old(self).program
                }) && final(self).last_clock == now,
                Err(LedgerError::AdminMissing) => !has_admin(old(self).admins@, caller)
                    && unchanged_views(*old(self), *final(self)),
                Err(LedgerError::PositionMissing) => !has_position(
                    old(self).positions@,
                    nft_mint,
                    owner,
                ) && unchanged_views(*old(self), *final(self)),
                Err(LedgerError::Core(e)) => (exists|i: int, ai: int|
                    {
                        &&& 0 <= i < old(self).positions@.len()
                        &&& old(self).positions@[i].nft_mint == nft_mint
                        &&& old(self).positions@[i].owner == owner
                        &&& 0 <= ai < old(self).admins@.len()
                        &&& old(self).admins@[ai].admin == caller
                        &&& ops::unlock_check(
                            old(self).program,
                            old(self).positions@[i],
                            old(self).requests@[i],
                            old(self).admins@[ai],
                            caller,
                            reason@,
                            now,
                        ) == Err::<(), StakingError>(e)
                    }) && unchanged_views(*old(self), *final(self)),
                Err(_) => false,
            }),
    {
        let ai = match self.find_admin(caller) {
            None => {
                return Err(LedgerError::AdminMissing);
            },
            Some(a) => a,
        };
        let admin_record = self.admins[ai];
        let i = match self.find_position(nft_mint, owner) {
            None => {
                return Err(LedgerError::PositionMissing);
            },
            Some(i) => i,
        };
        let mint = self.positions[i].collection_mint;
        let k = match self.find_collection(mint) {
            None => {
                proof {
                    assert(false);
                }
                return Err(LedgerError::PositionMissing);
            },
            Some(k) => k,
        };
        let ghost old_self = *self;
        let mut position = self.positions[i];
        let mut collection = self.collections[k];
        let mut request = self.requests.remove(i);
        proof {
            if old_self.positions@[i as int].is_active {
                lemma_active_position_counted(old_self.positions@, i as int);
            }
        }
        let unlocked = ops::admin_unlock(
            &mut self.program,
            &mut collection,
            &mut position,
            &mut request,
            &admin_record,
            caller,
            reason,
            now,
        );
        self.requests.insert(i, request);
        proof {
            assert(self.requests@ =~= old_self.requests@.update(i as int, self.requests@[i as int]));
        }
        match unlocked {
            Ok(EmergencyOutcome::Requested) => {
                self.last_clock = now;
                Ok(EmergencyOutcome::Requested)
            },
            Ok(EmergencyOutcome::Executed(ev)) => {
                self.positions[i] = position;
                self.collections[k] = collection;
                self.last_clock = now;
                proof {
                    lemma_unlock_preserves_consistency(
                        old_self.program,
                        self.program,
                        old_self.collections@,
                        self.collections@,
                        old_self.positions@,
                        i as int,
                        k as int,
                    );
                    assert forall|j: int|
                        0 <= j < self.positions@.len() implies has_collection(
                        self.collections@,
                        self.positions@[j].collection_mint,
                    ) by {
                        let m = old_self.positions@[j].collection_mint;
                        let k0 = choose|k0: int|
                            0 <= k0 < old_self.collections@.len()
                                && old_self.collections@[k0].collection_mint == m;
                        assert(self.collections@[k0].collection_mint == m);
                        assert(self.positions@[j].collection_mint == m);
                    }
                }
                Ok(EmergencyOutcome::Executed(ev))
            },
            Err(e) => {
                proof {
                    assert(self.requests@ =~= old_self.requests@);
                }
                Err(LedgerError::Core(e))
            },
        }
    }
    /// Sets the pause switch; the caller must hold an admin record.
    pub fn pause_contract(&mut self, caller: u64, now: i64) -> (r: Result<(), LedgerError>)
        requires
            old(self).wf(),
            old(self).last_clock <= now <= MAX_CLOCK,
        ensures
            final(self).wf(),
            (match r {
                Ok(()) => {
                    &&& has_admin(old(self).admins@, caller)
                    &&& final(self).program == (StakingProgram {
                        is_paused: true,
                        paused_at: now,
                        ..old(self).program
                    })
                    &&& final(self).admins@ == old(self).admins@
                    &&& final(self).collections@ == old(self).collections@
                    &&& final(self).positions@ == old(self).positions@
                    &&& final(self).requests@ == old(self).requests@
                    &&& final(self).last_clock == now
                },
                Err(LedgerError::AdminMissing) => !has_admin(old(self).admins@, caller) && *final(self) == *old(self),
                Err(_) => false,
            }),
    {
        let ai = match self.find_admin(caller) {
            None => {
                return Err(LedgerError::AdminMissing);
            },
            Some(a) => a,
        };
        let admin_record = self.admins[ai];
        match ops::pause_contract(&mut self.program, &admin_record, caller, now) {
            Ok(()) => {
                self.last_clock = now;
                Ok(())
            },
            Err(_) => {
                proof {
                    assert(false);
                }
                Err(LedgerError::AdminMissing)
            },
        }
    }

    /// Clears the pause switch; the caller must hold an admin record.
    pub fn unpause_contract(&mut self, caller: u64) -> (r: Result<(), LedgerError>)
        requires
            old(self).wf(),
        ensures
            final(self).wf(),
            (match r {
                Ok(()) => {
                    &&& has_admin(old(self).admins@, caller)
                    &&& final(self).program == (StakingProgram {
                        is_paused: false,
                        paused_at: 0,
                        ..old(self).program
                    })
                    &&& final(self).admins@ == old(self).admins@
                    &&& final(self).collections@ == old(self).collections@
                    &&& final(self).positions@ == old(self).positions@
                    &&& final(self).requests@ == old(self).requests@
                    &&& final(self).last_clock == old(self).last_clock
                },
                Err(LedgerError::AdminMissing) => !has_admin(old(self).admins@, caller) && *final(self) == *old(self),
                Err(_) => false,
            }),
    {
        let ai = match self.find_admin(caller) {
            None => {
                return Err(LedgerError::AdminMissing);
            },
            Some(a) => a,
        };
        let admin_record = self.admins[ai];
        match ops::unpause_contract(&mut self.program, &admin_record, caller) {
            Ok(()) => Ok(()),
            Err(_) => {
                proof {
                    assert(false);
                }
                Err(LedgerError::AdminMissing)
            },
        }
    }

    /// Overwrites a collection's ticket table; the caller must hold an
    /// admin record.
    pub fn update_collection_rewards(
        &mut self,
        caller: u64,
        collection_mint: u64,
        six_month_tickets: u64,
        twelve_month_tickets: u64,
        three_year_tickets: u64,
    ) -> (r: Result<CollectionUpdated, LedgerError>)
        requires
            old(self).wf(),
        ensures
            final(self).wf(),
            (match r {
                Ok(ev) => (exists|k: int|
                    {
                        &&& 0 <= k < old(self).collections@.len()
                        &&& old(self).collections@[k].collection_mint == collection_mint
                        &&& final(self).collections@ == old(self).collections@.update(
                            k,
                            CollectionAccount {
                                six_month_tickets,
                                twelve_month_tickets,
                                three_year_tickets,
                                ..old(self).collections@[k]
                            },
                        )
                    }) && has_admin(old(self).admins@, caller) && !old(self).program.is_paused
                    && ev == (CollectionUpdated {
                    collection_mint,
                    six_month_tickets,
                    twelve_month_tickets,
                    three_year_tickets,
                }) && final(self).program == old(self).program && final(self).positions@ == old(self).positions@ && final(self).requests@ == old(self).requests@ && final(self).admins@
                    == old(self).admins@ && final(self).last_clock == old(self).last_clock,
                Err(LedgerError::AdminMissing) => !has_admin(old(self).admins@, caller) && *final(self) == *old(self),
                Err(LedgerError::Core(StakingError::CollectionNotFound)) => !has_collection(
                    old(self).collections@,
                    collection_mint,
                ) && *final(self) == *old(self),
                Err(LedgerError::Core(e)) => (exists|ai: int|
                    0 <= ai < old(self).admins@.len() && old(self).admins@[ai].admin == caller
                        && ops::admin_op_check(old(self).program, old(self).admins@[ai], caller)
                        == Err::<(), StakingError>(e)) && *final(self) == *old(self),
                Err(_) => false,
            }),
    {
        let ai = match self.find_admin(caller) {
            None => {
                return Err(LedgerError::AdminMissing);
            },
            Some(a) => a,
        };
        let admin_record = self.admins[ai];
        let k = match self.find_collection(collection_mint) {
            None => {
                return Err(LedgerError::Core(StakingError::CollectionNotFound));
            },
            Some(k) => k,
        };
        let ghost old_self = *self;
        let mut collection = self.collections[k];
        match ops::update_collection_rewards(
            &self.program,
            &mut collection,
            &admin_record,
            caller,
            six_month_tickets,
            twelve_month_tickets,
            three_year_tickets,
        ) {
            Ok(ev) => {
                self.collections[k] = collection;
                proof {
                    assert forall|j: int|
                        0 <= j < self.positions@.len() implies has_collection(
                        self.collections@,
                        self.positions@[j].collection_mint,
                    ) by {
                        let m = old_self.positions@[j].collection_mint;
                        let k0 = choose|k0: int|
                            0 <= k0 < old_self.collections@.len()
                                && old_self.collections@[k0].collection_mint == m;
                        assert(self.collections@[k0].collection_mint == m);
                    }
                }
                Ok(ev)
            },
            Err(e) => Err(LedgerError::Core(e)),
        }
    }

    /// Sets or clears a collection's advisory validation flag; the
    /// caller must hold an admin record.
    pub fn validate_collection(
        &mut self,
        caller: u64,
        collection_mint: u64,
        validated: bool,
    ) -> (r: Result<(), LedgerError>)
        requires
            old(self).wf(),
        ensures
            final(self).wf(),
            (match r {
                Ok(()) => (exists|k: int|
                    {
                        &&& 0 <= k < old(self).collections@.len()
                        &&& old(self).collections@[k].collection_mint == collection_mint
                        &&& final(self).collections@ == old(self).collections@.update(
                            k,
                            CollectionAccount {
                                is_validated: validated,
                                ..old(self).collections@[k]
                            },
                        )
                    }) && has_admin(old(self).admins@, caller) && !old(self).program.is_paused
                    && final(self).program == old(self).program && final(self).positions@ == old(self).positions@ && final(self).requests@ == old(self).requests@ && final(self).admins@
                    == old(self).admins@ && final(self).last_clock == old(self).last_clock,
                Err(LedgerError::AdminMissing) => !has_admin(old(self).admins@, caller) && *final(self) == *old(self),
                Err(LedgerError::Core(StakingError::CollectionNotFound)) => !has_collection(
                    old(self).collections@,
                    collection_mint,
                ) && *final(self) == *old(self),
                Err(LedgerError::Core(e)) => (exists|ai: int|
                    0 <= ai < old(self).admins@.len() && old(self).admins@[ai].admin == caller
                        && ops::admin_op_check(old(self).program, old(self).admins@[ai], caller)
                        == Err::<(), StakingError>(e)) && *final(self) == *old(self),
                Err(_) => false,
            }),
    {
        let ai = match self.find_admin(caller) {
            None => {
                return Err(LedgerError::AdminMissing);
            },
            Some(a) => a,
        };
        let admin_record = self.admins[ai];
        let k = match self.find_collection(collection_mint) {
            None => {
                return Err(LedgerError::Core(StakingError::CollectionNotFound));
            },
            Some(k) => k,
        };
        let ghost old_self = *self;
        let mut collection = self.collections[k];
        match ops::validate_collection(
            &self.program,
            &mut collection,
            &admin_record,
            caller,
            validated,
        ) {
            Ok(()) => {
                self.collections[k] = collection;
                proof {
                    assert forall|j: int|
                        0 <= j < self.positions@.len() implies has_collection(
                        self.collections@,
                        self.positions@[j].collection_mint,
                    ) by {
                        let m = old_self.positions@[j].collection_mint;
                        let k0 = choose|k0: int|
                            0 <= k0 < old_self.collections@.len()
                                && old_self.collections@[k0].collection_mint == m;
                        assert(self.collections@[k0].collection_mint == m);
                    }
                }
                Ok(())
            },
            Err(e) => Err(LedgerError::Core(e)),
        }
    }
}

/// The record stores hold the same contents.
pub open spec fn unchanged_views(a: Ledger, b: Ledger) -> bool {
    &&& b.program == a.program
    &&& b.admins@ == a.admins@
    &&& b.collections@ == a.collections@
    &&& b.positions@ == a.positions@
    &&& b.requests@ == a.requests@
    &&& b.last_clock == a.last_clock
}

} // verus!
