//! The data model: the sale ledger, the per-buyer record, and their
//! invariants.

use vstd::prelude::*;
use crate::errors::PresaleError;

verus! {

/// Decimal places of the issued resource; one whole unit is `10^TOKEN_DECIMALS`
/// base units.
pub const TOKEN_DECIMALS: u8 = 9;

/// Base units per whole resource unit (`10^TOKEN_DECIMALS`).
pub const TOKEN_BASE: u128 = 1_000_000_000;

/// Smallest payment units per whole payment unit.
pub const LAMPORTS_PER_SOL: u128 = 1_000_000_000;

/// Per-tier caps, in whole resource units.
pub const STAGE_1_TOKENS: u128 = 150_000_000;
pub const STAGE_2_TOKENS: u128 = 200_000_000;
pub const STAGE_3_TOKENS: u128 = 200_000_000;
pub const STAGE_4_TOKENS: u128 = 225_000_000;
pub const STAGE_5_TOKENS: u128 = 225_000_000;

/// An opaque participant or administrator identity. The ledger only ever
/// compares identities for equality; what they are is the custody layer's
/// business.
#[derive(Clone, Copy, Debug, PartialEq, Eq, Structural)]
pub struct Identity {
    pub key: u64,
}

/// The global sale ledger: one instance for the sale's whole life.
///
/// Invariant (see [`PresaleState::wf`]): each tier's `sold` counter never
/// exceeds its cap, every price is positive, the stage pointer stays in
/// `1..=5`, and `total_allocated` equals the sum of the five `sold` counters.
#[derive(Clone, Copy, Debug, PartialEq, Eq, Structural)]
pub struct PresaleState {
    /// The privileged administrator.
    pub owner: Identity,
    /// Whole currency units per whole payment unit (externally supplied).
    pub usd_per_sol: u64,
    /// Sale-open timestamp (inclusive).
    pub presale_start: i64,
    /// Sale-close timestamp (inclusive).
    pub presale_end: i64,
    /// Orthogonal gate, independent of the time window.
    pub paused: bool,
    /// The active tier, in `1..=5`; never decreases.
    pub current_stage: u8,

    /// Tier prices, in currency cents per whole resource unit.
    pub stage_1_price: u64,
    pub stage_2_price: u64,
    pub stage_3_price: u64,
    pub stage_4_price: u64,
    pub stage_5_price: u64,

    /// Tier caps, in base units.
    pub stage_1_cap: u64,
    pub stage_2_cap: u64,
    pub stage_3_cap: u64,
    pub stage_4_cap: u64,
    pub stage_5_cap: u64,

    /// Cumulative base units sold per tier.
    pub stage_1_sold: u64,
    pub stage_2_sold: u64,
    pub stage_3_sold: u64,
    pub stage_4_sold: u64,
    pub stage_5_sold: u64,

    /// Sum of all allocations ever granted, in base units; never decreases.
    pub total_allocated: u64,
}

/// One participant's record: entitlement granted versus entitlement redeemed.
///
/// Invariant (see [`UserAllocation::wf`]): `claimed_raw <= allocated_raw`.
#[derive(Clone, Copy, Debug, PartialEq, Eq, Structural)]
pub struct UserAllocation {
    /// The owning participant; immutable once set.
    pub buyer: Identity,
    /// Cumulative base units granted; never decreases.
    pub allocated_raw: u64,
    /// Cumulative base units redeemed; never decreases.
    pub claimed_raw: u64,
}

impl PresaleState {
    /// The five tier prices, tier `s` at index `s - 1`.
    pub open spec fn prices(self) -> Seq<int> {
        seq![
            self.stage_1_price as int,
            self.stage_2_price as int,
            self.stage_3_price as int,
            self.stage_4_price as int,
            self.stage_5_price as int,
        ]
    }

    /// The five tier caps, tier `s` at index `s - 1`.
    pub open spec fn caps(self) -> Seq<int> {
        seq![
            self.stage_1_cap as int,
            self.stage_2_cap as int,
            self.stage_3_cap as int,
            self.stage_4_cap as int,
            self.stage_5_cap as int,
        ]
    }

    /// The five tier sold counters, tier `s` at index `s - 1`.
    pub open spec fn solds(self) -> Seq<int> {
        seq![
            self.stage_1_sold as int,
            self.stage_2_sold as int,
            self.stage_3_sold as int,
            self.stage_4_sold as int,
            self.stage_5_sold as int,
        ]
    }

    /// Total base units sold over all five tiers.
    pub open spec fn sold_sum(self) -> int {
        self.stage_1_sold + self.stage_2_sold + self.stage_3_sold
            + self.stage_4_sold + self.stage_5_sold
    }

    /// The per-tier invariants: no tier oversold, every price positive.
    pub open spec fn stages_wf(self) -> bool {
        &&& self.stage_1_sold <= self.stage_1_cap
        &&& self.stage_2_sold <= self.stage_2_cap
        &&& self.stage_3_sold <= self.stage_3_cap
        &&& self.stage_4_sold <= self.stage_4_cap
        &&& self.stage_5_sold <= self.stage_5_cap
        &&& self.stage_1_price >= 1
        &&& self.stage_2_price >= 1
        &&& self.stage_3_price >= 1
        &&& self.stage_4_price >= 1
        &&& self.stage_5_price >= 1
    }

    /// Well-formedness: the ledger invariants that initialization establishes
    /// and every operation preserves.
    pub open spec fn wf(self) -> bool {
        &&& 1 <= self.current_stage <= 5
        &&& self.stages_wf()
        &&& self.total_allocated == self.sold_sum()
    }
}

impl UserAllocation {
    /// A fresh record for `buyer`, with nothing granted and nothing redeemed.
    pub fn new(buyer: Identity) -> (r: UserAllocation)
        ensures
            r == (UserAllocation { buyer, allocated_raw: 0, claimed_raw: 0 }),
    {
        UserAllocation { buyer, allocated_raw: 0, claimed_raw: 0 }
    }

    /// Well-formedness: a buyer never redeems more than was granted.
    pub open spec fn wf(self) -> bool {
        self.claimed_raw <= self.allocated_raw
    }
}

/// The price (cents per whole unit) and remaining capacity (base units) of one
/// tier; `InvalidStage` outside the ladder `1..=5`. Pure: no side effects.
pub fn price_and_remaining(state: &PresaleState, stage: u8) -> (r: Result<(u64, u128), PresaleError>)
    requires
        state.stages_wf(),
    ensures
        1 <= stage <= 5 ==> r == Ok::<(u64, u128), PresaleError>((
            state.prices()[stage as int - 1] as u64,
            (state.caps()[stage as int - 1] - state.solds()[stage as int - 1]) as u128,
        )),
        !(1 <= stage <= 5) ==> r == Err::<(u64, u128), PresaleError>(PresaleError::InvalidStage),
{
    match stage {
        1 => Ok((state.stage_1_price, (state.stage_1_cap - state.stage_1_sold) as u128)),
        2 => Ok((state.stage_2_price, (state.stage_2_cap - state.stage_2_sold) as u128)),
        3 => Ok((state.stage_3_price, (state.stage_3_cap - state.stage_3_sold) as u128)),
        4 => Ok((state.stage_4_price, (state.stage_4_cap - state.stage_4_sold) as u128)),
        5 => Ok((state.stage_5_price, (state.stage_5_cap - state.stage_5_sold) as u128)),
        _ => Err(PresaleError::InvalidStage),
    }
}

} // verus!
