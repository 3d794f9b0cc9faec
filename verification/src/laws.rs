//! Laws that relate several operations, stated once and proved for every
//! input rather than for chosen values.

use vstd::prelude::*;
use vstd::arithmetic::div_mod::{lemma_basic_div, lemma_div_pos_is_pos};
use vstd::arithmetic::mul::lemma_mul_nonnegative;
use crate::buy_tokens::{conversion_overflows, spec_buy, stage_fill, usd_cents_of, Fill};
use crate::claim_tokens::spec_claim;
use crate::errors::PresaleError;
use crate::events::{TokensAllocated, TokensClaimed};
use crate::state::{Identity, PresaleState, UserAllocation, TOKEN_BASE};

verus! {

/// The tier-filling walk only moves forward and only adds: the tier it stops
/// on is at or past the tier it started on, and it never takes a grant back.
proof fn lemma_stage_fill_range(p: Seq<int>, c: Seq<int>, s: Seq<int>, cents: int, stage: int)
    requires
        1 <= stage,
        s.len() == 5,
        c.len() == 5,
        forall|i: int| 0 <= i < 5 ==> #[trigger] s[i] <= c[i],
    ensures
        stage_fill(p, c, s, cents, stage) matches Fill::Done { solds, grant, stage: st2 }
            ==> st2 >= stage && grant >= 0,
    decreases 6 - stage,
{
    if stage > 5 || cents <= 0 {
    } else {
        let i = stage - 1;
        let remaining = c[i] - s[i];
        if remaining == 0 {
            lemma_stage_fill_range(p, c, s, cents, stage + 1);
        } else if p[i] <= 0 {
        } else {
            let units = cents / p[i];
            lemma_div_pos_is_pos(cents, p[i]);
            if units == 0 {
            } else if units * (TOKEN_BASE as int) > u128::MAX {
            } else {
                lemma_mul_nonnegative(units, TOKEN_BASE as int);
                let raw_needed = units * (TOKEN_BASE as int);
                if raw_needed < remaining {
                } else {
                    let used = (remaining / (TOKEN_BASE as int)) * p[i];
                    let s2 = s.update(i, c[i]);
                    assert forall|j: int| 0 <= j < 5 implies #[trigger] s2[j] <= c[j] by {
                        if j != i {
                            assert(s[j] <= c[j]);
                        }
                    }
                    lemma_stage_fill_range(p, c, s2, cents - used, stage + 1);
                }
            }
        }
    }
}

/// Law: a purchase never moves the stage pointer backwards and never
/// decreases the ledger total, the buyer's entitlement or the buyer's
/// redeemed counter; a failed purchase changes nothing at all. Chained over
/// any sequence of purchases, all four stay monotone.
pub proof fn lemma_buy_monotonic(
    state: PresaleState,
    user: UserAllocation,
    buyer: Identity,
    sol_amount: u64,
    now: i64,
)
    requires
        state.wf(),
    ensures
        spec_buy(state, user, buyer, sol_amount, now) matches Ok(res) ==> {
            &&& res.0.current_stage >= state.current_stage
            &&& res.0.total_allocated >= state.total_allocated
            &&& res.1.allocated_raw >= user.allocated_raw
            &&& res.1.claimed_raw == user.claimed_raw
        },
{
    lemma_stage_fill_range(
        state.prices(),
        state.caps(),
        state.solds(),
        usd_cents_of(sol_amount, state.usd_per_sol),
        state.current_stage as int,
    );
}

/// Law: a claim settles the record completely, so claiming twice in a row
/// with no intervening purchase succeeds once and then fails with
/// `NothingToClaim` — the counters make re-issuance impossible.
pub proof fn lemma_claim_idempotent(user: UserAllocation, caller: Identity)
    requires
        user.buyer == caller,
        user.claimed_raw < user.allocated_raw,
    ensures
        spec_claim(user, caller) matches Ok(res) && spec_claim(res.0, caller) == Err::<
            (UserAllocation, TokensClaimed),
            PresaleError,
        >(PresaleError::NothingToClaim),
{
}

/// Law: a purchase whose converted value is strictly below the active tier's
/// price, while that tier still has capacity, buys nothing: it fails with
/// `ZeroTokens` (and the engine commits no state change on any failure).
pub proof fn lemma_buy_below_price_rejected(
    state: PresaleState,
    user: UserAllocation,
    buyer: Identity,
    sol_amount: u64,
    now: i64,
)
    requires
        state.wf(),
        !state.paused,
        state.presale_start <= now <= state.presale_end,
        state.usd_per_sol > 0,
        sol_amount > 0,
        !conversion_overflows(sol_amount, state.usd_per_sol),
        state.solds()[state.current_stage - 1] < state.caps()[state.current_stage - 1],
        usd_cents_of(sol_amount, state.usd_per_sol) < state.prices()[state.current_stage - 1],
    ensures
        spec_buy(state, user, buyer, sol_amount, now) == Err::<
            (PresaleState, UserAllocation, TokensAllocated),
            PresaleError,
        >(PresaleError::ZeroTokens),
{
    let cents = usd_cents_of(sol_amount, state.usd_per_sol);
    let stage = state.current_stage as int;
    lemma_mul_nonnegative(sol_amount as int * state.usd_per_sol as int, 100);
    lemma_div_pos_is_pos(
        sol_amount as int * state.usd_per_sol as int * 100,
        crate::state::LAMPORTS_PER_SOL as int,
    );
    if cents > 0 {
        lemma_basic_div(cents, state.prices()[stage - 1]);
    }
    assert(stage_fill(state.prices(), state.caps(), state.solds(), cents, stage) == (Fill::Done {
        solds: state.solds(),
        grant: 0,
        stage,
    }));
}

} // verus!
