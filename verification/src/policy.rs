//! Time policy: the fixed lock lengths, delays and reward multipliers.

use vstd::prelude::*;

verus! {

/// Lock length of duration tier 0, in seconds: 180 days.
pub const SIX_MONTHS: i64 = 180 * 86400;

/// Lock length of duration tier 1, in seconds: 365 days.
pub const TWELVE_MONTHS: i64 = 365 * 86400;

/// Lock length of duration tier 2, in seconds: 1095 days.
pub const THREE_YEARS: i64 = 1095 * 86400;

/// Delay between an emergency-unlock request and the earliest time it may
/// be executed: 24 hours.
pub const EMERGENCY_DELAY: i64 = 86400;

/// Reserved for a future automatic unpause; no operation consults it.
pub const AUTO_UNPAUSE_DELAY: i64 = 7 * 86400;

/// Reward multiplier of tier 0 in basis points: 1.10x.
pub const SIX_MONTH_MULTIPLIER: u64 = 11000;

/// Reward multiplier of tier 1 in basis points: 1.25x.
pub const TWELVE_MONTH_MULTIPLIER: u64 = 12500;

/// Reward multiplier of tier 2 in basis points: 1.50x.
pub const THREE_YEAR_MULTIPLIER: u64 = 15000;

/// Largest clock reading for which computing an unlock time cannot
/// overflow a signed 64-bit timestamp.
pub const MAX_CLOCK: i64 = i64::MAX - THREE_YEARS;

/// The lock length selected by a duration tier.  Tiers above 2 are
/// rejected before this policy is consulted.
pub open spec fn spec_duration(tier: u8) -> i64 {
    if tier == 0 {
        SIX_MONTHS
    } else if tier == 1 {
        TWELVE_MONTHS
    } else {
        THREE_YEARS
    }
}

/// Lock length for a valid duration tier.
pub fn duration_for_tier(tier: u8) -> (d: i64)
    requires
        tier <= 2,
    ensures
        d == spec_duration(tier),
{
    if tier == 0 {
        SIX_MONTHS
    } else if tier == 1 {
        TWELVE_MONTHS
    } else {
        THREE_YEARS
    }
}

} // verus!
