//! The claim engine: settling the difference between what a buyer was
//! allocated and what was already redeemed.

use vstd::prelude::*;
use crate::errors::PresaleError;
use crate::events::TokensClaimed;
use crate::state::{Identity, UserAllocation};

verus! {

/// What a claim does, as a function of the record and the caller: the new
/// record and the settlement event on success, or the exact error.
pub open spec fn spec_claim(user: UserAllocation, caller: Identity) -> Result<
    (UserAllocation, TokensClaimed),
    PresaleError,
> {
    if user.buyer != caller {
        Err(PresaleError::Unauthorized)
    } else if user.allocated_raw <= user.claimed_raw {
        Err(PresaleError::NothingToClaim)
    } else {
        Ok((
            UserAllocation { claimed_raw: user.allocated_raw, ..user },
            TokensClaimed {
                buyer: user.buyer,
                claimed_raw: (user.allocated_raw - user.claimed_raw) as u64,
            },
        ))
    }
}

/// Settle the caller's outstanding allocation: everything granted but not yet
/// redeemed is marked claimed, and the returned event carries the amount the
/// external mint must now issue. Fails with `Unauthorized` if the caller does
/// not own the record, and with `NothingToClaim` if nothing is outstanding;
/// either failure leaves the record untouched.
///
/// The counters make re-issuance impossible: a second claim with no
/// intervening purchase finds `claimed_raw == allocated_raw` and fails.
pub fn claim_tokens(user: &mut UserAllocation, caller: Identity) -> (r: Result<
    TokensClaimed,
    PresaleError,
>)
    ensures
        match spec_claim(*old(user), caller) {
            Ok((u2, ev)) => {
                &&& r == Ok::<TokensClaimed, PresaleError>(ev)
                &&& *final(user) == u2
            },
            Err(e) => {
                &&& r == Err::<TokensClaimed, PresaleError>(e)
                &&& *final(user) == *old(user)
            },
        },
        final(user).wf() || *final(user) == *old(user),
        final(user).buyer == old(user).buyer,
        final(user).allocated_raw == old(user).allocated_raw,
        final(user).claimed_raw >= old(user).claimed_raw,
{
    if !(user.buyer == caller) {
        return Err(PresaleError::Unauthorized);
    }
    if user.allocated_raw <= user.claimed_raw {
        return Err(PresaleError::NothingToClaim);
    }
    let to_claim_raw: u64 = user.allocated_raw - user.claimed_raw;
    user.claimed_raw = user.allocated_raw;
    Ok(TokensClaimed { buyer: user.buyer, claimed_raw: to_claim_raw })
}

} // verus!
