use vstd::prelude::*;
use crate::types::Pubkey;

verus! {

/// The persistent record of one fundraising campaign.
#[derive(Clone, Copy, Debug)]
pub struct Pool {
    /// Principal entitled to finalize the pool and receive the raised funds.
    pub authority: Pubkey,
    /// The asset being sold.
    pub token_mint: Pubkey,
    /// Escrow account holding the deposited supply.
    pub token_vault: Pubkey,
    /// First instant (inclusive) at which contributions are accepted.
    pub start_time: i64,
    /// Last instant (inclusive) at which contributions are accepted.
    pub end_time: i64,
    /// Quantity of the asset deposited for sale.
    pub total_tokens: u64,
    /// Price of one whole asset unit, in raised currency scaled by `PRICE_SCALE`.
    pub token_price: u64,
    /// Smallest amount accepted by a single contribution.
    pub min_contribution: u64,
    /// Largest cumulative amount one participant may contribute.
    pub max_contribution: u64,
    /// Running sum of all contributions.
    pub total_raised: u64,
    /// Set once the raised funds have been swept to the authority.
    pub finalized: bool,
    /// Derivation byte of the pool's own address.
    pub bump: u8,
}

impl Pool {
    /// Size in bytes of the stored payload.
    pub const LEN: usize = 32 + 32 + 32 + 8 + 8 + 8 + 8 + 8 + 8 + 8 + 1 + 1;
}

/// What one participant has contributed to one pool and not yet redeemed.
#[derive(Clone, Copy, Debug)]
pub struct UserContribution {
    pub amount: u64,
}

impl UserContribution {
    /// Size in bytes of the stored payload.
    pub const LEN: usize = 8;
}

/// A movement of `amount` asset units from `from` to `to`, signed by `authority`.
#[derive(Clone, Copy, Debug)]
pub struct TokenTransfer {
    pub from: Pubkey,
    pub to: Pubkey,
    pub authority: Pubkey,
    pub amount: u64,
}

/// The accounts that pool creation reads.
#[derive(Clone, Copy, Debug)]
pub struct InitializePool {
    /// The signing issuer.
    pub authority: Pubkey,
    pub token_mint: Pubkey,
    /// The escrow account created for the pool.
    pub token_vault: Pubkey,
    /// The issuer's own holding of the asset, source of the deposit.
    pub authority_token_account: Pubkey,
}

/// The accounts that a contribution reads and writes.
#[derive(Clone, Copy, Debug)]
pub struct Contribute {
    pub pool: Pool,
    pub user_contribution: UserContribution,
}

/// The accounts that finalization reads and writes, with their native balances.
#[derive(Clone, Copy, Debug)]
pub struct FinalizePool {
    pub pool: Pool,
    /// Balance of the account holding the raised funds.
    pub pool_vault_lamports: u64,
    /// The signing caller.
    pub authority: Pubkey,
    /// Balance of the caller's account.
    pub authority_lamports: u64,
}

/// The accounts that a claim reads and writes.
#[derive(Clone, Copy, Debug)]
pub struct ClaimTokens {
    pub pool: Pool,
    /// Address of the pool record, which signs withdrawals from escrow.
    pub pool_key: Pubkey,
    pub user_contribution: UserContribution,
    pub token_vault: Pubkey,
    pub user_token_account: Pubkey,
}

} // verus!
