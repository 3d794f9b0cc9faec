//! Structured records of what an operation did.
//!
//! Each successful operation returns the event it would emit; delivering the
//! event to an external sink is the caller's business. The ledger never reads
//! an event back.

use vstd::prelude::*;
use crate::state::Identity;

verus! {

/// The sale was created: who owns it and when it runs.
#[derive(Clone, Copy, Debug, PartialEq, Eq, Structural)]
pub struct Initialized {
    pub owner: Identity,
    pub start_ts: i64,
    pub end_ts: i64,
}

/// A purchase granted `allocated_raw` base units to `buyer`.
#[derive(Clone, Copy, Debug, PartialEq, Eq, Structural)]
pub struct TokensAllocated {
    pub buyer: Identity,
    pub allocated_raw: u64,
}

/// A claim settled `claimed_raw` base units for `buyer`.
#[derive(Clone, Copy, Debug, PartialEq, Eq, Structural)]
pub struct TokensClaimed {
    pub buyer: Identity,
    pub claimed_raw: u64,
}

/// The owner withdrew `amount` payment units from custody.
#[derive(Clone, Copy, Debug, PartialEq, Eq, Structural)]
pub struct WithdrawnSol {
    pub owner: Identity,
    pub amount: u64,
}

/// The owner withdrew `amount_raw` base units of unsold resource.
#[derive(Clone, Copy, Debug, PartialEq, Eq, Structural)]
pub struct WithdrawnToken {
    pub owner: Identity,
    pub amount_raw: u64,
}

/// The sale window was overwritten.
#[derive(Clone, Copy, Debug, PartialEq, Eq, Structural)]
pub struct PresaleTimesUpdated {
    pub start_ts: i64,
    pub end_ts: i64,
}

/// The owner paused the sale.
#[derive(Clone, Copy, Debug, PartialEq, Eq, Structural)]
pub struct SalePaused {
    pub owner: Identity,
}

/// The owner resumed the sale.
#[derive(Clone, Copy, Debug, PartialEq, Eq, Structural)]
pub struct SaleResumed {
    pub owner: Identity,
}

} // verus!
