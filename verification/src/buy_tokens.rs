//! The allocation engine: converting a payment into per-tier grants.
//!
//! A purchase is first converted to currency cents, then filled tier by tier:
//! exhausted tiers are skipped without consuming funds, a tier with capacity
//! is granted `min(affordable, remaining)` base units, and a partial grant
//! that drains the tier advances the ladder so the leftover cents buy at the
//! next tier's price. Cents too few for one whole unit at the stopping tier
//! are forfeit, not refunded.

use vstd::prelude::*;
use vstd::arithmetic::div_mod::{
    lemma_basic_div, lemma_div_by_multiple, lemma_div_is_ordered, lemma_fundamental_div_mod,
    lemma_mod_division_less_than_divisor,
};
use vstd::arithmetic::mul::{lemma_mul_inequality, lemma_mul_is_commutative};
use crate::errors::PresaleError;
use crate::events::TokensAllocated;
use crate::state::{Identity, PresaleState, UserAllocation, LAMPORTS_PER_SOL, TOKEN_BASE};

verus! {

/// The outcome of the ideal tier-filling walk: either the whole-unit demand
/// overflowed the engine's arithmetic width, or the new sold counters, the
/// base units granted, and the tier the walk stopped on.
#[verifier::ext_equal]
pub enum Fill {
    Overflow,
    Done { solds: Seq<int>, grant: int, stage: int },
}

/// Add `extra` base units to a walk's grant; overflow stays overflow.
pub open spec fn fill_then(f: Fill, extra: int) -> Fill {
    match f {
        Fill::Overflow => Fill::Overflow,
        Fill::Done { solds, grant, stage } => Fill::Done { solds, grant: grant + extra, stage },
    }
}

/// The tier-filling walk itself, starting at `stage` with `cents` to spend.
///
/// Each tier is visited at most once with a grant: a grant capped by the
/// tier's remaining capacity drains it and the walk moves on; an uncapped
/// grant leaves cents below one unit's price, so the walk stops there. The
/// demand `units * TOKEN_BASE` is checked against the engine's `u128` width,
/// as the executable loop checks it.
pub open spec fn stage_fill(
    prices: Seq<int>,
    caps: Seq<int>,
    solds: Seq<int>,
    cents: int,
    stage: int,
) -> Fill
    decreases 6 - stage,
{
    if stage > 5 || cents <= 0 {
        Fill::Done { solds, grant: 0, stage }
    } else {
        let i = stage - 1;
        let remaining = caps[i] - solds[i];
        if remaining == 0 {
            stage_fill(prices, caps, solds, cents, stage + 1)
        } else if prices[i] <= 0 {
            Fill::Done { solds, grant: 0, stage }
        } else {
            let units = cents / prices[i];
            if units == 0 {
                Fill::Done { solds, grant: 0, stage }
            } else if units * (TOKEN_BASE as int) > u128::MAX {
                Fill::Overflow
            } else {
                let raw_needed = units * (TOKEN_BASE as int);
                if raw_needed < remaining {
                    Fill::Done {
                        solds: solds.update(i, solds[i] + raw_needed),
                        grant: raw_needed,
                        stage,
                    }
                } else {
                    let used = (remaining / (TOKEN_BASE as int)) * prices[i];
                    fill_then(
                        stage_fill(prices, caps, solds.update(i, caps[i]), cents - used, stage + 1),
                        remaining,
                    )
                }
            }
        }
    }
}

/// Whether converting `sol_amount` payment units at rate `usd_per_sol`
/// overflows the engine's `u128` width.
pub open spec fn conversion_overflows(sol_amount: u64, usd_per_sol: u64) -> bool {
    sol_amount * usd_per_sol * 100 > u128::MAX
}

/// The currency cents a payment is worth:
/// `floor(sol_amount * usd_per_sol * 100 / LAMPORTS_PER_SOL)`.
pub open spec fn usd_cents_of(sol_amount: u64, usd_per_sol: u64) -> int {
    (sol_amount * usd_per_sol * 100) / (LAMPORTS_PER_SOL as int)
}

/// What a purchase does, as a function of the ledger, the buyer's record and
/// the clock: the new ledger, the new record and the allocation event on
/// success, or the exact error. The guards are checked in the ledger's fixed
/// order: pause, window start, window end, rate, amount.
pub open spec fn spec_buy(
    state: PresaleState,
    user: UserAllocation,
    buyer: Identity,
    sol_amount: u64,
    now: i64,
) -> Result<(PresaleState, UserAllocation, TokensAllocated), PresaleError> {
    if state.paused {
        Err(PresaleError::SalePaused)
    } else if now < state.presale_start {
        Err(PresaleError::SaleNotStarted)
    } else if now > state.presale_end {
        Err(PresaleError::SaleEnded)
    } else if state.usd_per_sol == 0 {
        Err(PresaleError::InvalidOraclePrice)
    } else if sol_amount == 0 {
        Err(PresaleError::ZeroPurchase)
    } else if conversion_overflows(sol_amount, state.usd_per_sol) {
        Err(PresaleError::MathOverflow)
    } else {
        let cents = usd_cents_of(sol_amount, state.usd_per_sol);
        match stage_fill(
            state.prices(),
            state.caps(),
            state.solds(),
            cents,
            state.current_stage as int,
        ) {
            Fill::Overflow => Err(PresaleError::MathOverflow),
            Fill::Done { solds, grant, stage } => {
                if grant == 0 {
                    Err(PresaleError::ZeroTokens)
                } else if grant > u64::MAX {
                    Err(PresaleError::MathOverflow)
                } else if state.total_allocated + grant > u64::MAX {
                    Err(PresaleError::MathOverflow)
                } else if user.allocated_raw + grant > u64::MAX {
                    Err(PresaleError::MathOverflow)
                } else {
                    Ok((
                        PresaleState {
                            current_stage: (if stage > 5 { 5 } else { stage }) as u8,
                            stage_1_sold: solds[0] as u64,
                            stage_2_sold: solds[1] as u64,
                            stage_3_sold: solds[2] as u64,
                            stage_4_sold: solds[3] as u64,
                            stage_5_sold: solds[4] as u64,
                            total_allocated: (state.total_allocated + grant) as u64,
                            ..state
                        },
                        UserAllocation {
                            buyer,
                            allocated_raw: (user.allocated_raw + grant) as u64,
                            claimed_raw: user.claimed_raw,
                        },
                        TokensAllocated { buyer, allocated_raw: grant as u64 },
                    ))
                }
            },
        }
    }
}

/// Convert `sol_amount` payment units into per-tier allocations for `buyer`
/// at time `now`, mutating the ledger and the buyer's record exactly as
/// [`spec_buy`] says, or failing with its exact error and no state change.
///
/// The caller is expected to have moved `sol_amount` into the sale's custody
/// before calling (the capture-then-fail ordering: a rejected purchase does
/// not refund by itself), and to deliver the returned event afterwards.
#[verifier::loop_isolation(false)]
#[verifier::rlimit(50)]
pub fn buy_tokens(
    state: &mut PresaleState,
    user: &mut UserAllocation,
    buyer: Identity,
    sol_amount: u64,
    now: i64,
) -> (r: Result<TokensAllocated, PresaleError>)
    requires
        old(state).wf(),
        old(user).wf(),
        old(user).buyer == buyer,
    ensures
        final(state).wf(),
        final(user).wf(),
        match spec_buy(*old(state), *old(user), buyer, sol_amount, now) {
            Ok(res) => {
                &&& r == Ok::<TokensAllocated, PresaleError>(res.2)
                &&& *final(state) == res.0
                &&& *final(user) == res.1
            },
            Err(e) => {
                &&& r == Err::<TokensAllocated, PresaleError>(e)
                &&& *final(state) == *old(state)
                &&& *final(user) == *old(user)
            },
        },
        final(state).current_stage >= old(state).current_stage,
        final(state).total_allocated >= old(state).total_allocated,
        final(user).allocated_raw >= old(user).allocated_raw,
        final(user).claimed_raw == old(user).claimed_raw,
        final(user).buyer == old(user).buyer,
        final(state).owner == old(state).owner,
{
    if state.paused {
        return Err(PresaleError::SalePaused);
    }
    if now < state.presale_start {
        return Err(PresaleError::SaleNotStarted);
    }
    if now > state.presale_end {
        return Err(PresaleError::SaleEnded);
    }
    if state.usd_per_sol == 0 {
        return Err(PresaleError::InvalidOraclePrice);
    }
    if sol_amount == 0 {
        return Err(PresaleError::ZeroPurchase);
    }

    // payment units -> currency cents, in double width
    let sol_amount_u128: u128 = sol_amount as u128;
    let usd_per_sol_u128: u128 = state.usd_per_sol as u128;
    proof {
        assert(sol_amount_u128 as int * usd_per_sol_u128 as int <= u128::MAX) by (nonlinear_arith)
            requires
                sol_amount_u128 <= 0xffff_ffff_ffff_ffff,
                usd_per_sol_u128 <= 0xffff_ffff_ffff_ffff;
    }
    let product: u128 = sol_amount_u128 * usd_per_sol_u128;
    if product > u128::MAX / 100 {
        proof {
            lemma_fundamental_div_mod(u128::MAX as int, 100);
            lemma_mod_division_less_than_divisor(u128::MAX as int, 100);
        }
        return Err(PresaleError::MathOverflow);
    }
    let mut usd_cents: u128 = (product * 100) / (LAMPORTS_PER_SOL as u128);

    let ghost p = old(state).prices();
    let ghost c = old(state).caps();
    let ghost cents_0 = usd_cents as int;
    let ghost stage_0 = old(state).current_stage as int;
    let ghost fill_0 = stage_fill(p, c, old(state).solds(), cents_0, stage_0);

    // the walk works on a scratch copy; the ledger is written only on success
    let mut st: PresaleState = *state;
    let mut stage: u8 = state.current_stage;
    let mut grant_total: u128 = 0;
    let mut overflow: bool = false;
    let mut stop: bool = false;

    while !stop && usd_cents > 0 && stage <= 5
        invariant
            st == (PresaleState {
                stage_1_sold: st.stage_1_sold,
                stage_2_sold: st.stage_2_sold,
                stage_3_sold: st.stage_3_sold,
                stage_4_sold: st.stage_4_sold,
                stage_5_sold: st.stage_5_sold,
                ..*old(state)
            }),
            st.stages_wf(),
            1 <= stage as int <= 6,
            stage_0 <= stage as int,
            grant_total as int == st.sold_sum() - old(state).sold_sum(),
            overflow ==> stop,
            stop && overflow ==> fill_0 == Fill::Overflow,
            stop && !overflow ==> fill_0 == (Fill::Done {
                solds: st.solds(),
                grant: grant_total as int,
                stage: stage as int,
            }),
            !stop ==> fill_then(
                stage_fill(p, c, st.solds(), usd_cents as int, stage as int),
                grant_total as int,
            ) == fill_0,
        decreases (if stop { 0int } else { 1int }), 6 - stage as int, usd_cents,
    {
        let ghost pre = st.solds();
        let ghost pre_cents = usd_cents as int;
        let ghost pre_stage = stage as int;
        let ghost i = stage as int - 1;

        let (price_cents, remaining) = match crate::state::price_and_remaining(&st, stage) {
            Ok(t) => t,
            Err(_) => {
                assert(false);
                (1u64, 0u128)
            },
        };
        proof {
            assert(price_cents as int == p[i]);
            assert(remaining as int == c[i] - pre[i]);
        }

        if remaining == 0 {
            stage = stage + 1;
            proof {
                assert(stage_fill(p, c, pre, pre_cents, pre_stage) == stage_fill(
                    p,
                    c,
                    pre,
                    pre_cents,
                    pre_stage + 1,
                ));
            }
        } else {
            let tokens_units: u128 = usd_cents / (price_cents as u128);
            if tokens_units == 0 {
                stop = true;
                proof {
                    assert(stage_fill(p, c, pre, pre_cents, pre_stage) == (Fill::Done {
                        solds: pre,
                        grant: 0,
                        stage: pre_stage,
                    }));
                }
            } else if tokens_units > u128::MAX / TOKEN_BASE {
                overflow = true;
                stop = true;
                proof {
                    lemma_fundamental_div_mod(u128::MAX as int, TOKEN_BASE as int);
                    lemma_mod_division_less_than_divisor(u128::MAX as int, TOKEN_BASE as int);
                    assert(stage_fill(p, c, pre, pre_cents, pre_stage) == Fill::Overflow);
                }
            } else {
                proof {
                    lemma_fundamental_div_mod(u128::MAX as int, TOKEN_BASE as int);
                    lemma_mod_division_less_than_divisor(u128::MAX as int, TOKEN_BASE as int);
                }
                let raw_needed: u128 = tokens_units * TOKEN_BASE;
                let to_allocate_raw: u128 = if raw_needed <= remaining {
                    raw_needed
                } else {
                    remaining
                };
                proof {
                    // one whole unit's worth of cents at this tier fits in the
                    // funds: price * units <= cents, and the granted units are
                    // at most the affordable units
                    lemma_fundamental_div_mod(pre_cents, price_cents as int);
                    lemma_mod_division_less_than_divisor(pre_cents, price_cents as int);
                    lemma_div_is_ordered(
                        to_allocate_raw as int,
                        raw_needed as int,
                        TOKEN_BASE as int,
                    );
                    lemma_div_by_multiple(tokens_units as int, TOKEN_BASE as int);
                    lemma_mul_inequality(
                        (to_allocate_raw as int) / (TOKEN_BASE as int),
                        tokens_units as int,
                        price_cents as int,
                    );
                    lemma_mul_is_commutative(tokens_units as int, price_cents as int);
                }
                let allocated_units: u128 = to_allocate_raw / TOKEN_BASE;
                let usd_cents_used: u128 = allocated_units * (price_cents as u128);

                if stage == 1 {
                    st.stage_1_sold = st.stage_1_sold + (to_allocate_raw as u64);
                } else if stage == 2 {
                    st.stage_2_sold = st.stage_2_sold + (to_allocate_raw as u64);
                } else if stage == 3 {
                    st.stage_3_sold = st.stage_3_sold + (to_allocate_raw as u64);
                } else if stage == 4 {
                    st.stage_4_sold = st.stage_4_sold + (to_allocate_raw as u64);
                } else {
                    st.stage_5_sold = st.stage_5_sold + (to_allocate_raw as u64);
                }
                grant_total = grant_total + to_allocate_raw;
                usd_cents = usd_cents - usd_cents_used;

                let rem_after = match crate::state::price_and_remaining(&st, stage) {
                    Ok(t) => t.1,
                    Err(_) => {
                        assert(false);
                        0u128
                    },
                };
                proof {
                    assert(st.solds() =~= pre.update(i, pre[i] + to_allocate_raw as int));
                    assert(rem_after as int == c[i] - st.solds()[i]);
                }
                if rem_after == 0 {
                    stage = stage + 1;
                    proof {
                        assert(stage_fill(p, c, pre, pre_cents, pre_stage) == fill_then(
                            stage_fill(p, c, st.solds(), usd_cents as int, stage as int),
                            to_allocate_raw as int,
                        ));
                    }
                } else {
                    proof {
                        // the grant was not capped, so the leftover cents are
                        // below one unit's price and the walk stops here
                        assert(to_allocate_raw == raw_needed);
                        assert(usd_cents as int == pre_cents % (price_cents as int));
                        if usd_cents > 0 {
                            lemma_basic_div(usd_cents as int, price_cents as int);
                        }
                        assert(stage_fill(p, c, st.solds(), usd_cents as int, stage as int)
                            == (Fill::Done { solds: st.solds(), grant: 0, stage: pre_stage }));
                        assert(stage_fill(p, c, pre, pre_cents, pre_stage) == (Fill::Done {
                            solds: st.solds(),
                            grant: raw_needed as int,
                            stage: pre_stage,
                        }));
                    }
                }
            }
        }
    }

    proof {
        if !stop {
            assert(stage_fill(p, c, st.solds(), usd_cents as int, stage as int) == (Fill::Done {
                solds: st.solds(),
                grant: 0,
                stage: stage as int,
            }));
        }
    }
    if overflow {
        return Err(PresaleError::MathOverflow);
    }
    let final_stage: u8 = if stage > 5 {
        5
    } else {
        stage
    };
    if grant_total == 0 {
        return Err(PresaleError::ZeroTokens);
    }
    if grant_total > u64::MAX as u128 {
        return Err(PresaleError::MathOverflow);
    }
    let grant_64: u64 = grant_total as u64;
    if state.total_allocated > u64::MAX - grant_64 {
        return Err(PresaleError::MathOverflow);
    }
    if user.allocated_raw > u64::MAX - grant_64 {
        return Err(PresaleError::MathOverflow);
    }

    // commit
    state.stage_1_sold = st.stage_1_sold;
    state.stage_2_sold = st.stage_2_sold;
    state.stage_3_sold = st.stage_3_sold;
    state.stage_4_sold = st.stage_4_sold;
    state.stage_5_sold = st.stage_5_sold;
    state.current_stage = final_stage;
    state.total_allocated = state.total_allocated + grant_64;
    user.buyer = buyer;
    user.allocated_raw = user.allocated_raw + grant_64;
    Ok(TokensAllocated { buyer, allocated_raw: grant_64 })
}

} // verus!
