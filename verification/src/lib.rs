//! Time-locked staking of unique collectible assets.
//!
//! The crate is the verified core of a staking system: a global
//! configuration singleton with a pause switch, a registry of authorized
//! administrators, a registry of eligible asset collections, one ledger
//! record per staked asset, and a two-phase delayed emergency-unlock
//! escalation.  Every operation is a pure state transition over these
//! records; the host that persists the records, authenticates callers,
//! reads the clock and moves the assets calls into this crate and acts on
//! what it returns.

pub mod counting;
pub mod laws;
pub mod ledger;
pub mod ops;
pub mod policy;
pub mod records;
