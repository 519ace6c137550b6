//! Active-position counting: the mathematical reading of the two running
//! totals, and how each state transition moves them.
//!
//! The data-model invariant is that the global configuration's
//! `total_staked` equals the number of active positions over all
//! collections, and each collection's `total_staked` equals the number of
//! active positions referencing that collection.

use vstd::prelude::*;

use crate::records::{CollectionAccount, StakingPosition, StakingProgram};

verus! {

/// Whether a position is active and references the given collection.
pub open spec fn active_in_collection(p: StakingPosition, collection_mint: u64) -> bool {
    p.is_active && p.collection_mint == collection_mint
}

/// Number of active positions among `ps` that reference `collection_mint`.
pub open spec fn count_active_for(ps: Seq<StakingPosition>, collection_mint: u64) -> int
    decreases ps.len(),
{
    if ps.len() == 0 {
        0
    } else {
        count_active_for(ps.drop_last(), collection_mint) + if active_in_collection(
            ps.last(),
            collection_mint,
        ) {
            1int
        } else {
            0int
        }
    }
}

/// Number of active positions among `ps`, over all collections.
pub open spec fn count_active(ps: Seq<StakingPosition>) -> int
    decreases ps.len(),
{
    if ps.len() == 0 {
        0
    } else {
        count_active(ps.drop_last()) + if ps.last().is_active {
            1int
        } else {
            0int
        }
    }
}

/// The counters are consistent with the position ledger: the global total
/// counts every active position, and each collection record counts the
/// active positions that reference it.
pub open spec fn counts_consistent(
    g: StakingProgram,
    cs: Seq<CollectionAccount>,
    ps: Seq<StakingPosition>,
) -> bool {
    &&& g.total_staked as int == count_active(ps)
    &&& forall|i: int|
        0 <= i < cs.len() ==> cs[i].total_staked as int == count_active_for(
            ps,
            cs[i].collection_mint,
        )
}

/// No two collection records share an identity; the host's
/// duplicate-creation rejection keeps the registry this way.
pub open spec fn collections_unique(cs: Seq<CollectionAccount>) -> bool {
    forall|i: int, j: int|
        0 <= i < cs.len() && 0 <= j < cs.len() && i != j ==> cs[i].collection_mint
            != cs[j].collection_mint
}

/// Both counts are never negative.
pub proof fn lemma_counts_nonnegative(ps: Seq<StakingPosition>, collection_mint: u64)
    ensures
        0 <= count_active(ps),
        0 <= count_active_for(ps, collection_mint),
    decreases ps.len(),
{
    if ps.len() > 0 {
        lemma_counts_nonnegative(ps.drop_last(), collection_mint);
    }
}

/// An active position makes both counts that cover it at least one.
pub proof fn lemma_active_position_counted(ps: Seq<StakingPosition>, i: int)
    requires
        0 <= i < ps.len(),
        ps[i].is_active,
    ensures
        count_active(ps) >= 1,
        count_active_for(ps, ps[i].collection_mint) >= 1,
    decreases ps.len(),
{
    lemma_counts_nonnegative(ps.drop_last(), ps[i].collection_mint);
    if i < ps.len() - 1 {
        lemma_active_position_counted(ps.drop_last(), i);
    }
}

/// Appending a position raises each count by one exactly when the new
/// position is active, respectively active in the counted collection.
pub proof fn lemma_count_push(ps: Seq<StakingPosition>, p: StakingPosition, collection_mint: u64)
    ensures
        count_active(ps.push(p)) == count_active(ps) + if p.is_active {
            1int
        } else {
            0int
        },
        count_active_for(ps.push(p), collection_mint) == count_active_for(ps, collection_mint)
            + if active_in_collection(p, collection_mint) {
            1int
        } else {
            0int
        },
{
    assert(ps.push(p).drop_last() =~= ps);
    assert(ps.push(p).last() == p);
}

/// A collection that no position references counts zero active
/// positions.
pub proof fn lemma_count_zero_when_unreferenced(ps: Seq<StakingPosition>, collection_mint: u64)
    requires
        forall|i: int| 0 <= i < ps.len() ==> ps[i].collection_mint != collection_mint,
    ensures
        count_active_for(ps, collection_mint) == 0,
    decreases ps.len(),
{
    if ps.len() > 0 {
        assert(forall|i: int|
            0 <= i < ps.drop_last().len() ==> ps.drop_last()[i] == ps[i]);
        lemma_count_zero_when_unreferenced(ps.drop_last(), collection_mint);
    }
}

/// Recomputes, by scanning the ledger, how many active positions
/// reference `collection_mint`.
pub fn recount_active_for(positions: &Vec<StakingPosition>, collection_mint: u64) -> (n: usize)
    ensures
        n as int == count_active_for(positions@, collection_mint),
{
    let mut n: usize = 0;
    let mut i: usize = 0;
    while i < positions.len()
        invariant
            i <= positions@.len(),
            n <= i,
            n as int == count_active_for(positions@.take(i as int), collection_mint),
        decreases positions@.len() - i,
    {
        proof {
            assert(positions@.take(i + 1).drop_last() =~= positions@.take(i as int));
            assert(positions@.take(i + 1).last() == positions@[i as int]);
        }
        if positions[i].is_active && positions[i].collection_mint == collection_mint {
            n = n + 1;
        }
        i = i + 1;
    }
    proof {
        assert(positions@.take(positions@.len() as int) =~= positions@);
    }
    n
}

/// Recomputes, by scanning the ledger, how many positions are active.
pub fn recount_active(positions: &Vec<StakingPosition>) -> (n: usize)
    ensures
        n as int == count_active(positions@),
{
    let mut n: usize = 0;
    let mut i: usize = 0;
    while i < positions.len()
        invariant
            i <= positions@.len(),
            n <= i,
            n as int == count_active(positions@.take(i as int)),
        decreases positions@.len() - i,
    {
        proof {
            assert(positions@.take(i + 1).drop_last() =~= positions@.take(i as int));
            assert(positions@.take(i + 1).last() == positions@[i as int]);
        }
        if positions[i].is_active {
            n = n + 1;
        }
        i = i + 1;
    }
    proof {
        assert(positions@.take(positions@.len() as int) =~= positions@);
    }
    n
}

/// Audits the running totals against an independent rescan of the
/// position ledger: true exactly when the global counter and every
/// collection counter agree with the positions, so counter drift can
/// never hide.
pub fn audit_counts(
    program: &StakingProgram,
    collections: &Vec<CollectionAccount>,
    positions: &Vec<StakingPosition>,
) -> (ok: bool)
    ensures
        ok == counts_consistent(*program, collections@, positions@),
{
    let total = recount_active(positions);
    if program.total_staked != total as u64 {
        return false;
    }
    let mut i: usize = 0;
    while i < collections.len()
        invariant
            i <= collections@.len(),
            program.total_staked as int == count_active(positions@),
            forall|j: int|
                0 <= j < i ==> collections@[j].total_staked as int == count_active_for(
                    positions@,
                    collections@[j].collection_mint,
                ),
        decreases collections@.len() - i,
    {
        let per_collection = recount_active_for(positions, collections[i].collection_mint);
        if collections[i].total_staked != per_collection as u64 {
            return false;
        }
        i = i + 1;
    }
    true
}

/// Replacing one position changes each count by the difference the two
/// versions of that position contribute to it.
pub proof fn lemma_count_update(
    ps: Seq<StakingPosition>,
    i: int,
    p: StakingPosition,
    collection_mint: u64,
)
    requires
        0 <= i < ps.len(),
    ensures
        count_active(ps.update(i, p)) == count_active(ps) + (if p.is_active {
            1int
        } else {
            0int
        }) - (if ps[i].is_active {
            1int
        } else {
            0int
        }),
        count_active_for(ps.update(i, p), collection_mint) == count_active_for(ps, collection_mint)
            + (if active_in_collection(p, collection_mint) {
            1int
        } else {
            0int
        }) - (if active_in_collection(ps[i], collection_mint) {
            1int
        } else {
            0int
        }),
    decreases ps.len(),
{
    let qs = ps.update(i, p);
    if i == ps.len() - 1 {
        assert(qs.drop_last() =~= ps.drop_last());
        assert(qs.last() == p);
    } else {
        assert(qs.drop_last() =~= ps.drop_last().update(i, p));
        assert(qs.last() == ps.last());
        lemma_count_update(ps.drop_last(), i, p, collection_mint);
    }
}

} // verus!
