//! The typed failures of the ledger.
//!
//! Every operation either succeeds or aborts with exactly one of these
//! errors and no state change committed.

use vstd::prelude::*;

verus! {

/// One rejection reason per failing operation; surfaced verbatim to the
/// caller, never retried inside the ledger.
#[derive(Clone, Copy, Debug, PartialEq, Eq, Structural)]
pub enum PresaleError {
    /// An addition, subtraction or multiplication left the width of its
    /// operands; no wraparound is ever permitted.
    MathOverflow,
    /// The stored payment-currency rate is zero.
    InvalidOraclePrice,
    /// A purchase of zero payment units.
    ZeroPurchase,
    /// The payment could not buy a single whole unit at any reachable tier.
    ZeroTokens,
    /// The purchase came before the sale window opened.
    SaleNotStarted,
    /// The purchase came after the sale window closed.
    SaleEnded,
    /// The sale is paused by the administrator.
    SalePaused,
    /// The caller is not the identity the operation requires.
    Unauthorized,
    /// A stage index outside the ladder `1..=5`.
    InvalidStage,
    /// A claim with no outstanding allocation.
    NothingToClaim,
    /// A buyer identity that does not own the allocation record.
    UnauthorizedBuyer,
    /// A withdrawal larger than the custody balance.
    InsufficientFunds,
}

} // verus!
