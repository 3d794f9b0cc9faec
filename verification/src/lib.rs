//! A staged, price-laddered fundraising ledger.
//!
//! Participants deposit payment value and receive a bookkeeping entitlement
//! ("allocation") to a scarce resource, priced on an ascending five-tier
//! schedule with independent per-tier caps. Redemption ("claim") is separate
//! in time from allocation. The actual movement of funds and issuance of the
//! resource is performed by external custody and mint services; this crate
//! holds the verified ledger logic those services are driven by.

pub mod admin;
pub mod buy_tokens;
pub mod claim_tokens;
pub mod errors;
pub mod events;
pub mod initialize;
pub mod laws;
pub mod state;

pub use admin::{admin_set_times, pause_sale, resume_sale, withdraw_sol, withdraw_token};
pub use buy_tokens::buy_tokens;
pub use claim_tokens::claim_tokens;
pub use errors::PresaleError;
pub use initialize::initialize;
pub use events::{
    Initialized, PresaleTimesUpdated, SalePaused, SaleResumed, TokensAllocated, TokensClaimed,
    WithdrawnSol, WithdrawnToken,
};
pub use state::{price_and_remaining, Identity, PresaleState, UserAllocation};
