//! Creation of the sale ledger.

use vstd::prelude::*;
use crate::events::Initialized;
use crate::state::{
    Identity, PresaleState, STAGE_1_TOKENS, STAGE_2_TOKENS, STAGE_3_TOKENS, STAGE_4_TOKENS,
    STAGE_5_TOKENS, TOKEN_BASE,
};

verus! {

/// Create the ledger exactly once: the caller becomes the owner, the window
/// and the payment-currency rate are stored as given, the five-tier ladder is
/// set to its fixed prices (1 to 5 cents per whole unit) and caps, nothing is
/// sold, and the sale starts unpaused at stage 1.
///
/// Account creation, custody setup and event delivery are the caller's
/// business; the returned event records what was created.
pub fn initialize(
    owner: Identity,
    usd_per_sol: u64,
    presale_start_ts: i64,
    presale_end_ts: i64,
) -> (r: (PresaleState, Initialized))
    ensures
        r.0 == (PresaleState {
            owner,
            usd_per_sol,
            presale_start: presale_start_ts,
            presale_end: presale_end_ts,
            paused: false,
            current_stage: 1,
            stage_1_price: 1,
            stage_2_price: 2,
            stage_3_price: 3,
            stage_4_price: 4,
            stage_5_price: 5,
            stage_1_cap: (STAGE_1_TOKENS * TOKEN_BASE) as u64,
            stage_2_cap: (STAGE_2_TOKENS * TOKEN_BASE) as u64,
            stage_3_cap: (STAGE_3_TOKENS * TOKEN_BASE) as u64,
            stage_4_cap: (STAGE_4_TOKENS * TOKEN_BASE) as u64,
            stage_5_cap: (STAGE_5_TOKENS * TOKEN_BASE) as u64,
            stage_1_sold: 0,
            stage_2_sold: 0,
            stage_3_sold: 0,
            stage_4_sold: 0,
            stage_5_sold: 0,
            total_allocated: 0,
        }),
        r.0.wf(),
        r.1 == (Initialized {
            owner,
            start_ts: presale_start_ts,
            end_ts: presale_end_ts,
        }),
{
    let cap_1: u128 = STAGE_1_TOKENS * TOKEN_BASE;
    let cap_2: u128 = STAGE_2_TOKENS * TOKEN_BASE;
    let cap_3: u128 = STAGE_3_TOKENS * TOKEN_BASE;
    let cap_4: u128 = STAGE_4_TOKENS * TOKEN_BASE;
    let cap_5: u128 = STAGE_5_TOKENS * TOKEN_BASE;
    let state = PresaleState {
        owner,
        usd_per_sol,
        presale_start: presale_start_ts,
        presale_end: presale_end_ts,
        paused: false,
        current_stage: 1,
        stage_1_price: 1,
        stage_2_price: 2,
        stage_3_price: 3,
        stage_4_price: 4,
        stage_5_price: 5,
        stage_1_cap: cap_1 as u64,
        stage_2_cap: cap_2 as u64,
        stage_3_cap: cap_3 as u64,
        stage_4_cap: cap_4 as u64,
        stage_5_cap: cap_5 as u64,
        stage_1_sold: 0,
        stage_2_sold: 0,
        stage_3_sold: 0,
        stage_4_sold: 0,
        stage_5_sold: 0,
        total_allocated: 0,
    };
    let event = Initialized {
        owner,
        start_ts: presale_start_ts,
        end_ts: presale_end_ts,
    };
    (state, event)
}

} // verus!
