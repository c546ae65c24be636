//! Lifecycle and accounting engine of a time-bounded token sale pool.
//!
//! An issuer deposits a fixed supply of an asset into escrow, participants contribute
//! inside an inclusive time window within per-participant bounds, the issuer sweeps the
//! raised funds once the window has closed, and each participant then redeems their
//! contribution once at a fixed price. Every operation here decides from plain values;
//! reading the clock and moving funds is left to the caller.
pub mod launchpad;
pub mod laws;
pub mod state;
pub mod types;

pub use launchpad::{
    claim_tokens, contribute, finalize_pool, initialize_pool, settle_claim, PRICE_SCALE,
};
pub use state::{
    ClaimTokens, Contribute, FinalizePool, InitializePool, Pool, TokenTransfer, UserContribution,
};
pub use types::{ErrorCode, Pubkey};
