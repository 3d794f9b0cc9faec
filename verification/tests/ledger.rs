//! Tests of initialization, the pure tier queries, the claim engine's
//! guards, and the owner-gated admin operations.

use growsol::admin::{admin_set_times, pause_sale, resume_sale, withdraw_sol, withdraw_token};
use growsol::buy_tokens::buy_tokens;
use growsol::claim_tokens::claim_tokens;
use growsol::errors::PresaleError;
use growsol::events::{
    Initialized, PresaleTimesUpdated, SalePaused, SaleResumed, WithdrawnSol, WithdrawnToken,
};
use growsol::initialize::initialize;
use growsol::state::{price_and_remaining, Identity, UserAllocation};

const RAW: u64 = 1_000_000_000;

fn owner() -> Identity {
    Identity { key: 1 }
}

fn buyer() -> Identity {
    Identity { key: 2 }
}

fn stranger() -> Identity {
    Identity { key: 3 }
}

#[test]
fn initialize_sets_the_ladder() {
    let (state, ev) = initialize(owner(), 20, 100, 200);
    assert_eq!(
        ev,
        Initialized { owner: owner(), start_ts: 100, end_ts: 200 }
    );
    assert_eq!(state.owner, owner());
    assert_eq!(state.usd_per_sol, 20);
    assert_eq!(state.presale_start, 100);
    assert_eq!(state.presale_end, 200);
    assert!(!state.paused);
    assert_eq!(state.current_stage, 1);
    assert_eq!(
        [
            state.stage_1_price,
            state.stage_2_price,
            state.stage_3_price,
            state.stage_4_price,
            state.stage_5_price,
        ],
        [1, 2, 3, 4, 5]
    );
    assert_eq!(state.stage_1_cap, 150_000_000 * RAW);
    assert_eq!(state.stage_2_cap, 200_000_000 * RAW);
    assert_eq!(state.stage_3_cap, 200_000_000 * RAW);
    assert_eq!(state.stage_4_cap, 225_000_000 * RAW);
    assert_eq!(state.stage_5_cap, 225_000_000 * RAW);
    assert_eq!(state.total_allocated, 0);
    assert_eq!(state.stage_1_sold, 0);
    assert_eq!(state.stage_5_sold, 0);
}

#[test]
fn remaining_per_stage() {
    let (mut state, _ev) = initialize(owner(), 20, 0, 10_000);
    state.stage_1_sold = 4 * RAW;
    state.total_allocated = 4 * RAW;
    assert_eq!(
        price_and_remaining(&state, 1),
        Ok((1, (150_000_000u128 * RAW as u128) - 4 * RAW as u128))
    );
    assert_eq!(
        price_and_remaining(&state, 5),
        Ok((5, 225_000_000u128 * RAW as u128))
    );
    assert_eq!(price_and_remaining(&state, 0), Err(PresaleError::InvalidStage));
    assert_eq!(price_and_remaining(&state, 6), Err(PresaleError::InvalidStage));
}

#[test]
fn claim_requires_the_record_owner() {
    let mut user = UserAllocation { buyer: buyer(), allocated_raw: 5, claimed_raw: 0 };
    let r = claim_tokens(&mut user, stranger());
    assert_eq!(r, Err(PresaleError::Unauthorized));
    assert_eq!(user.claimed_raw, 0);
}

#[test]
fn claim_with_nothing_outstanding() {
    let mut user = UserAllocation::new(buyer());
    assert_eq!(
        claim_tokens(&mut user, buyer()),
        Err(PresaleError::NothingToClaim)
    );
}

#[test]
fn claim_settles_only_the_outstanding_part() {
    let mut user = UserAllocation { buyer: buyer(), allocated_raw: 9 * RAW, claimed_raw: 4 * RAW };
    let r = claim_tokens(&mut user, buyer()).unwrap();
    assert_eq!(r.claimed_raw, 5 * RAW);
    assert_eq!(user.claimed_raw, 9 * RAW);
    assert_eq!(user.allocated_raw, 9 * RAW);
}

#[test]
fn pause_by_stranger_is_unauthorized() {
    let (mut state, _ev) = initialize(owner(), 20, 0, 10_000);
    let r = pause_sale(&mut state, stranger());
    assert_eq!(r, Err(PresaleError::Unauthorized));
    assert!(!state.paused);
}

#[test]
fn pause_and_resume() {
    let (mut state, _ev) = initialize(owner(), 20, 0, 10_000);
    assert_eq!(
        pause_sale(&mut state, owner()),
        Ok(SalePaused { owner: owner() })
    );
    assert!(state.paused);
    // idempotent: pausing a paused sale is not an error
    assert_eq!(
        pause_sale(&mut state, owner()),
        Ok(SalePaused { owner: owner() })
    );
    assert!(state.paused);

    // a paused sale rejects purchases even inside the window
    let mut user = UserAllocation::new(buyer());
    assert_eq!(
        buy_tokens(&mut state, &mut user, buyer(), 1_000_000_000, 5),
        Err(PresaleError::SalePaused)
    );

    assert_eq!(
        resume_sale(&mut state, owner()),
        Ok(SaleResumed { owner: owner() })
    );
    assert!(!state.paused);
    assert_eq!(
        resume_sale(&mut state, stranger()),
        Err(PresaleError::Unauthorized)
    );
    assert!(!state.paused);
}

#[test]
fn set_times_overwrites_without_validation() {
    let (mut state, _ev) = initialize(owner(), 20, 0, 10_000);
    let r = admin_set_times(&mut state, owner(), 500, 400);
    assert_eq!(r, Ok(PresaleTimesUpdated { start_ts: 500, end_ts: 400 }));
    assert_eq!(state.presale_start, 500);
    assert_eq!(state.presale_end, 400);

    let r = admin_set_times(&mut state, stranger(), 0, 1);
    assert_eq!(r, Err(PresaleError::Unauthorized));
    assert_eq!(state.presale_start, 500);
    assert_eq!(state.presale_end, 400);
}

#[test]
fn withdraw_sol_checks_owner_and_balance() {
    let (state, _ev) = initialize(owner(), 20, 0, 10_000);
    assert_eq!(
        withdraw_sol(&state, stranger(), 1_000, 500),
        Err(PresaleError::Unauthorized)
    );
    assert_eq!(
        withdraw_sol(&state, owner(), 400, 500),
        Err(PresaleError::InsufficientFunds)
    );
    assert_eq!(
        withdraw_sol(&state, owner(), 500, 500),
        Ok(WithdrawnSol { owner: owner(), amount: 500 })
    );
}

#[test]
fn withdraw_token_checks_owner_only() {
    let (state, _ev) = initialize(owner(), 20, 0, 10_000);
    assert_eq!(
        withdraw_token(&state, stranger(), 7),
        Err(PresaleError::Unauthorized)
    );
    // no cap check against the tiers: a deliberate escape hatch
    assert_eq!(
        withdraw_token(&state, owner(), u64::MAX),
        Ok(WithdrawnToken { owner: owner(), amount_raw: u64::MAX })
    );
}
