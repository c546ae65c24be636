use vstd::prelude::*;
use crate::state::{
    ClaimTokens, Contribute, FinalizePool, InitializePool, Pool, TokenTransfer, UserContribution,
};
use crate::types::ErrorCode;

verus! {

/// Fixed-point denominator of `Pool::token_price`: raised-currency units per whole asset unit
/// at a price of one.
pub const PRICE_SCALE: u64 = 1_000_000_000;

/// Asset units owed for `amount` of raised currency at `price`, rounded down.
pub open spec fn redeemed_tokens(amount: u64, price: u64) -> int
    recommends
        price > 0,
{
    (amount as int * PRICE_SCALE as int) / (price as int)
}

/// The pool that `initialize_pool` creates and the deposit into escrow that goes with it.
pub open spec fn initialize_result(
    ctx: InitializePool,
    pool_bump: u8,
    start_time: i64,
    end_time: i64,
    total_tokens: u64,
    token_price: u64,
    min_contribution: u64,
    max_contribution: u64,
) -> Result<(Pool, TokenTransfer), ErrorCode> {
    if start_time >= end_time || total_tokens == 0 || token_price == 0 || min_contribution
        > max_contribution {
        Err(ErrorCode::InvalidParameters)
    } else {
        Ok(
            (
                Pool {
                    authority: ctx.authority,
                    token_mint: ctx.token_mint,
                    token_vault: ctx.token_vault,
                    start_time,
                    end_time,
                    total_tokens,
                    token_price,
                    min_contribution,
                    max_contribution,
                    total_raised: 0,
                    finalized: false,
                    bump: pool_bump,
                },
                TokenTransfer {
                    from: ctx.authority_token_account,
                    to: ctx.token_vault,
                    authority: ctx.authority,
                    amount: total_tokens,
                },
            ),
        )
    }
}

/// The pool and the participant's record after contributing `amount` at time `now`, or the
/// first precondition that fails.
pub open spec fn contribute_result(
    pool: Pool,
    rec: UserContribution,
    now: i64,
    amount: u64,
) -> Result<(Pool, UserContribution), ErrorCode> {
    if now < pool.start_time {
        Err(ErrorCode::PoolNotStarted)
    } else if now > pool.end_time {
        Err(ErrorCode::PoolEnded)
    } else if pool.finalized {
        Err(ErrorCode::PoolFinalized)
    } else if amount == 0 || amount < pool.min_contribution {
        Err(ErrorCode::BelowMinContribution)
    } else if rec.amount + amount > pool.max_contribution {
        Err(ErrorCode::ExceedsMaxContribution)
    } else if pool.total_raised + amount > u64::MAX {
        Err(ErrorCode::ArithmeticOverflow)
    } else {
        Ok(
            (
                Pool { total_raised: (pool.total_raised + amount) as u64, ..pool },
                UserContribution { amount: (rec.amount + amount) as u64 },
            ),
        )
    }
}

/// The accounts after `ctx.authority` finalizes the pool at time `now`, or the first
/// precondition that fails.
pub open spec fn finalize_result(ctx: FinalizePool, now: i64) -> Result<FinalizePool, ErrorCode> {
    if ctx.authority.bytes@ != ctx.pool.authority.bytes@ {
        Err(ErrorCode::Unauthorized)
    } else if now <= ctx.pool.end_time {
        Err(ErrorCode::PoolNotEnded)
    } else if ctx.pool.finalized {
        Err(ErrorCode::PoolFinalized)
    } else if ctx.pool_vault_lamports < ctx.pool.total_raised {
        Err(ErrorCode::InsufficientBalance)
    } else if ctx.authority_lamports + ctx.pool.total_raised > u64::MAX {
        Err(ErrorCode::ArithmeticOverflow)
    } else {
        Ok(
            FinalizePool {
                pool: Pool { finalized: true, ..ctx.pool },
                pool_vault_lamports: (ctx.pool_vault_lamports - ctx.pool.total_raised) as u64,
                authority_lamports: (ctx.authority_lamports + ctx.pool.total_raised) as u64,
                ..ctx
            },
        )
    }
}

/// The transfer out of the pool's escrow that redeems the participant's contribution, or the
/// first precondition that fails. The escrow account handed in must be the pool's own.
pub open spec fn claim_result(ctx: ClaimTokens) -> Result<TokenTransfer, ErrorCode> {
    if !ctx.pool.finalized {
        Err(ErrorCode::PoolNotFinalized)
    } else if ctx.user_contribution.amount == 0 {
        Err(ErrorCode::NoContribution)
    } else if ctx.token_vault.bytes@ != ctx.pool.token_vault.bytes@ {
        Err(ErrorCode::InvalidVault)
    } else if ctx.pool.token_price == 0 || redeemed_tokens(
        ctx.user_contribution.amount,
        ctx.pool.token_price,
    ) > u64::MAX {
        Err(ErrorCode::ArithmeticOverflow)
    } else {
        Ok(
            TokenTransfer {
                from: ctx.token_vault,
                to: ctx.user_token_account,
                authority: ctx.pool_key,
                amount: redeemed_tokens(ctx.user_contribution.amount, ctx.pool.token_price) as u64,
            },
        )
    }
}

/// The claim accounts once the transfer out of escrow has succeeded or failed.
pub open spec fn settle_result(ctx: ClaimTokens, transferred: bool) -> ClaimTokens {
    if transferred {
        ClaimTokens { user_contribution: UserContribution { amount: 0 }, ..ctx }
    } else {
        ctx
    }
}

/// Validates the parameters of a new pool and builds its record, together with the
/// deposit of `total_tokens` from the issuer's holding into escrow. The record is to be
/// stored only once that deposit has succeeded.
pub fn initialize_pool(
    ctx: &InitializePool,
    pool_bump: u8,
    start_time: i64,
    end_time: i64,
    total_tokens: u64,
    token_price: u64,
    min_contribution: u64,
    max_contribution: u64,
) -> (r: Result<(Pool, TokenTransfer), ErrorCode>)
    ensures
        r == initialize_result(
            *ctx,
            pool_bump,
            start_time,
            end_time,
            total_tokens,
            token_price,
            min_contribution,
            max_contribution,
        ),
        r is Ok <==> (start_time < end_time && total_tokens > 0 && token_price > 0
            && min_contribution <= max_contribution),
{
    if start_time >= end_time || total_tokens == 0 || token_price == 0 || min_contribution
        > max_contribution {
        return Err(ErrorCode::InvalidParameters);
    }
    let pool = Pool {
        authority: ctx.authority,
        token_mint: ctx.token_mint,
        token_vault: ctx.token_vault,
        start_time,
        end_time,
        total_tokens,
        token_price,
        min_contribution,
        max_contribution,
        total_raised: 0,
        finalized: false,
        bump: pool_bump,
    };
    let deposit = TokenTransfer {
        from: ctx.authority_token_account,
        to: ctx.token_vault,
        authority: ctx.authority,
        amount: total_tokens,
    };
    Ok((pool, deposit))
}

/// Records a contribution of `amount` at time `now`; an amount of zero is refused as below
/// the minimum. On success both the participant's
/// record and the pool's running total grow by `amount`; on failure nothing changes.
pub fn contribute(ctx: &mut Contribute, now: i64, amount: u64) -> (r: Result<(), ErrorCode>)
    ensures
        match contribute_result(old(ctx).pool, old(ctx).user_contribution, now, amount) {
            Ok((pool, rec)) => r is Ok && final(ctx).pool == pool && final(ctx).user_contribution
                == rec,
            Err(e) => r == Err::<(), ErrorCode>(e) && *final(ctx) == *old(ctx),
        },
        r is Ok ==> final(ctx).pool.total_raised == old(ctx).pool.total_raised + amount
            && final(ctx).user_contribution.amount == old(ctx).user_contribution.amount + amount
            && final(ctx).user_contribution.amount <= final(ctx).pool.max_contribution,
{
    if now < ctx.pool.start_time {
        return Err(ErrorCode::PoolNotStarted);
    }
    if now > ctx.pool.end_time {
        return Err(ErrorCode::PoolEnded);
    }
    if ctx.pool.finalized {
        return Err(ErrorCode::PoolFinalized);
    }
    if amount == 0 || amount < ctx.pool.min_contribution {
        return Err(ErrorCode::BelowMinContribution);
    }
    if amount > ctx.pool.max_contribution || ctx.user_contribution.amount > ctx.pool.max_contribution
        - amount {
        return Err(ErrorCode::ExceedsMaxContribution);
    }
    if ctx.pool.total_raised > u64::MAX - amount {
        return Err(ErrorCode::ArithmeticOverflow);
    }
    ctx.user_contribution.amount = ctx.user_contribution.amount + amount;
    ctx.pool.total_raised = ctx.pool.total_raised + amount;
    Ok(())
}

/// Closes the pool for good and sweeps `total_raised` from the fund-holding account to the
/// authority. On failure nothing changes.
pub fn finalize_pool(ctx: &mut FinalizePool, now: i64) -> (r: Result<(), ErrorCode>)
    ensures
        match finalize_result(*old(ctx), now) {
            Ok(next) => r is Ok && *final(ctx) == next,
            Err(e) => r == Err::<(), ErrorCode>(e) && *final(ctx) == *old(ctx),
        },
{
    if !ctx.authority.same_key(&ctx.pool.authority) {
        return Err(ErrorCode::Unauthorized);
    }
    if now <= ctx.pool.end_time {
        return Err(ErrorCode::PoolNotEnded);
    }
    if ctx.pool.finalized {
        return Err(ErrorCode::PoolFinalized);
    }
    let raised = ctx.pool.total_raised;
    if ctx.pool_vault_lamports < raised {
        return Err(ErrorCode::InsufficientBalance);
    }
    if ctx.authority_lamports > u64::MAX - raised {
        return Err(ErrorCode::ArithmeticOverflow);
    }
    ctx.pool.finalized = true;
    ctx.pool_vault_lamports = ctx.pool_vault_lamports - raised;
    ctx.authority_lamports = ctx.authority_lamports + raised;
    Ok(())
}

/// Decides whether the participant may redeem now and, if so, the transfer out of escrow
/// that pays `floor(amount * PRICE_SCALE / token_price)` asset units. Nothing is changed
/// here: `settle_claim` applies the outcome of that transfer.
pub fn claim_tokens(ctx: &ClaimTokens) -> (r: Result<TokenTransfer, ErrorCode>)
    ensures
        r == claim_result(*ctx),
        r is Ok ==> r->Ok_0.from.bytes@ == ctx.pool.token_vault.bytes@,
{
    if !ctx.pool.finalized {
        return Err(ErrorCode::PoolNotFinalized);
    }
    let contribution_amount = ctx.user_contribution.amount;
    if contribution_amount == 0 {
        return Err(ErrorCode::NoContribution);
    }
    if !ctx.token_vault.same_key(&ctx.pool.token_vault) {
        return Err(ErrorCode::InvalidVault);
    }
    if ctx.pool.token_price == 0 {
        return Err(ErrorCode::ArithmeticOverflow);
    }
    proof {
        assert(contribution_amount as int * PRICE_SCALE as int <= u64::MAX as int
            * PRICE_SCALE as int) by (nonlinear_arith)
            requires
                contribution_amount <= u64::MAX,
        ;
    }
    let scaled: u128 = contribution_amount as u128 * PRICE_SCALE as u128;
    let token_amount: u128 = scaled / ctx.pool.token_price as u128;
    if token_amount > u64::MAX as u128 {
        return Err(ErrorCode::ArithmeticOverflow);
    }
    Ok(
        TokenTransfer {
            from: ctx.token_vault,
            to: ctx.user_token_account,
            authority: ctx.pool_key,
            amount: token_amount as u64,
        },
    )
}

/// Applies the outcome of the transfer that `claim_tokens` asked for: the record is zeroed
/// exactly when the transfer went through, and left as it was otherwise so that the claim
/// can be retried.
pub fn settle_claim(ctx: &mut ClaimTokens, transferred: bool) -> (r: Result<(), ErrorCode>)
    ensures
        *final(ctx) == settle_result(*old(ctx), transferred),
        r == (if transferred {
            Ok::<(), ErrorCode>(())
        } else {
            Err(ErrorCode::TransferFailed)
        }),
{
    if transferred {
        ctx.user_contribution.amount = 0;
        Ok(())
    } else {
        Err(ErrorCode::TransferFailed)
    }
}

} // verus!
