//! Owner-gated mutations of the ledger: window changes, pausing, and
//! withdrawal authorization.
//!
//! Every operation here first compares the caller's identity with the stored
//! owner and fails with `Unauthorized` on a mismatch, leaving the ledger
//! untouched. None of them consults the time window or the pause flag.

use vstd::prelude::*;
use crate::errors::PresaleError;
use crate::events::{PresaleTimesUpdated, SalePaused, SaleResumed, WithdrawnSol, WithdrawnToken};
use crate::state::{Identity, PresaleState};

verus! {

/// Overwrite the sale window unconditionally (no `start < end` validation),
/// if the caller is the owner.
pub fn admin_set_times(
    state: &mut PresaleState,
    caller: Identity,
    start_ts: i64,
    end_ts: i64,
) -> (r: Result<PresaleTimesUpdated, PresaleError>)
    ensures
        caller == old(state).owner ==> {
            &&& r == Ok::<PresaleTimesUpdated, PresaleError>(
                (PresaleTimesUpdated { start_ts, end_ts }),
            )
            &&& *final(state) == (PresaleState {
                presale_start: start_ts,
                presale_end: end_ts,
                ..*old(state)
            })
        },
        caller != old(state).owner ==> {
            &&& r == Err::<PresaleTimesUpdated, PresaleError>(PresaleError::Unauthorized)
            &&& *final(state) == *old(state)
        },
        old(state).wf() ==> final(state).wf(),
{
    if !(caller == state.owner) {
        return Err(PresaleError::Unauthorized);
    }
    state.presale_start = start_ts;
    state.presale_end = end_ts;
    Ok(PresaleTimesUpdated { start_ts, end_ts })
}

/// Set the pause gate, if the caller is the owner. Idempotent: pausing an
/// already-paused sale succeeds.
pub fn pause_sale(state: &mut PresaleState, caller: Identity) -> (r: Result<
    SalePaused,
    PresaleError,
>)
    ensures
        caller == old(state).owner ==> {
            &&& r == Ok::<SalePaused, PresaleError>((SalePaused { owner: old(state).owner }))
            &&& *final(state) == (PresaleState { paused: true, ..*old(state) })
        },
        caller != old(state).owner ==> {
            &&& r == Err::<SalePaused, PresaleError>(PresaleError::Unauthorized)
            &&& *final(state) == *old(state)
        },
        old(state).wf() ==> final(state).wf(),
{
    if !(caller == state.owner) {
        return Err(PresaleError::Unauthorized);
    }
    state.paused = true;
    Ok(SalePaused { owner: state.owner })
}

/// Clear the pause gate, if the caller is the owner. Idempotent: resuming a
/// running sale succeeds.
pub fn resume_sale(state: &mut PresaleState, caller: Identity) -> (r: Result<
    SaleResumed,
    PresaleError,
>)
    ensures
        caller == old(state).owner ==> {
            &&& r == Ok::<SaleResumed, PresaleError>((SaleResumed { owner: old(state).owner }))
            &&& *final(state) == (PresaleState { paused: false, ..*old(state) })
        },
        caller != old(state).owner ==> {
            &&& r == Err::<SaleResumed, PresaleError>(PresaleError::Unauthorized)
            &&& *final(state) == *old(state)
        },
        old(state).wf() ==> final(state).wf(),
{
    if !(caller == state.owner) {
        return Err(PresaleError::Unauthorized);
    }
    state.paused = false;
    Ok(SaleResumed { owner: state.owner })
}

/// Authorize moving `amount` payment units from the sale's custody to the
/// owner. The ledger checks the caller and the custody balance the caller
/// reports; the transfer itself is the custody layer's business and happens
/// only on `Ok`.
pub fn withdraw_sol(
    state: &PresaleState,
    caller: Identity,
    treasury_lamports: u64,
    amount: u64,
) -> (r: Result<WithdrawnSol, PresaleError>)
    ensures
        r == (if caller != state.owner {
            Err::<WithdrawnSol, PresaleError>(PresaleError::Unauthorized)
        } else if treasury_lamports < amount {
            Err::<WithdrawnSol, PresaleError>(PresaleError::InsufficientFunds)
        } else {
            Ok::<WithdrawnSol, PresaleError>((WithdrawnSol { owner: state.owner, amount }))
        }),
{
    if !(caller == state.owner) {
        return Err(PresaleError::Unauthorized);
    }
    if treasury_lamports < amount {
        return Err(PresaleError::InsufficientFunds);
    }
    Ok(WithdrawnSol { owner: state.owner, amount })
}

/// Authorize issuing `amount_raw` base units of unsold resource directly to
/// the owner, bypassing the allocation ledger entirely (no cap check against
/// the tiers): a deliberate escape hatch for leftover supply. The issuance
/// itself is the mint layer's business and happens only on `Ok`.
pub fn withdraw_token(state: &PresaleState, caller: Identity, amount_raw: u64) -> (r: Result<
    WithdrawnToken,
    PresaleError,
>)
    ensures
        r == (if caller != state.owner {
            Err::<WithdrawnToken, PresaleError>(PresaleError::Unauthorized)
        } else {
            Ok::<WithdrawnToken, PresaleError>(
                (WithdrawnToken { owner: state.owner, amount_raw }),
            )
        }),
{
    if !(caller == state.owner) {
        return Err(PresaleError::Unauthorized);
    }
    Ok(WithdrawnToken { owner: state.owner, amount_raw })
}

} // verus!
