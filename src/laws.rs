use vstd::prelude::*;
use crate::launchpad::{claim_result, contribute_result, finalize_result, settle_result};
use crate::state::{ClaimTokens, FinalizePool, Pool, UserContribution};
use crate::types::ErrorCode;

verus! {

/// Sum of the amounts held by a collection of contribution records.
pub open spec fn total_recorded(recs: Seq<UserContribution>) -> int
    decreases recs.len(),
{
    if recs.len() == 0 {
        0
    } else {
        total_recorded(recs.drop_last()) + recs.last().amount
    }
}

/// One call of `contribute`: the index of the participant's record, the time, the amount.
pub type ContributionStep = (int, i64, u64);

/// The pool and all participants' records after a sequence of `contribute` calls, each
/// acting on one record; a call that fails leaves everything as it was.
pub open spec fn run_contributions(
    pool: Pool,
    recs: Seq<UserContribution>,
    steps: Seq<ContributionStep>,
) -> (Pool, Seq<UserContribution>)
    decreases steps.len(),
{
    if steps.len() == 0 {
        (pool, recs)
    } else {
        let (p, rs) = run_contributions(pool, recs, steps.drop_last());
        let (i, now, amount) = steps.last();
        if 0 <= i < rs.len() {
            match contribute_result(p, rs[i], now, amount) {
                Ok((p2, r2)) => (p2, rs.update(i, r2)),
                Err(_) => (p, rs),
            }
        } else {
            (p, rs)
        }
    }
}

proof fn lemma_total_recorded_update(recs: Seq<UserContribution>, i: int, r: UserContribution)
    requires
        0 <= i < recs.len(),
    ensures
        total_recorded(recs.update(i, r)) == total_recorded(recs) - recs[i].amount + r.amount,
    decreases recs.len(),
{
    let u = recs.update(i, r);
    if i == recs.len() - 1 {
        assert(u.drop_last() =~= recs.drop_last());
    } else {
        lemma_total_recorded_update(recs.drop_last(), i, r);
        assert(u.drop_last() =~= recs.drop_last().update(i, r));
    }
}

/// Conservation: starting from a pool whose running total is the sum of all records, the
/// running total stays the sum of all records after any sequence of contributions. Along
/// the way the pool's parameters do not change and no record rises above the ceiling.
pub proof fn lemma_contributions_conserve_total(
    pool: Pool,
    recs: Seq<UserContribution>,
    steps: Seq<ContributionStep>,
)
    requires
        pool.total_raised == total_recorded(recs),
        forall|k: int| 0 <= k < recs.len() ==> recs[k].amount <= pool.max_contribution,
    ensures
        ({
            let (p, rs) = run_contributions(pool, recs, steps);
            &&& p.total_raised == total_recorded(rs)
            &&& rs.len() == recs.len()
            &&& p == Pool { total_raised: p.total_raised, ..pool }
            &&& forall|k: int| 0 <= k < rs.len() ==> rs[k].amount <= p.max_contribution
        }),
    decreases steps.len(),
{
    if steps.len() > 0 {
        lemma_contributions_conserve_total(pool, recs, steps.drop_last());
        let (p, rs) = run_contributions(pool, recs, steps.drop_last());
        let (i, now, amount) = steps.last();
        if 0 <= i < rs.len() {
            if let Ok((p2, r2)) = contribute_result(p, rs[i], now, amount) {
                lemma_total_recorded_update(rs, i, r2);
                let rs2 = rs.update(i, r2);
                assert forall|k: int| 0 <= k < rs2.len() implies rs2[k].amount
                    <= p2.max_contribution by {
                    if k != i {
                        assert(rs2[k] == rs[k]);
                    }
                }
            }
        }
    }
}

/// Ceiling: a contribution never lifts a record above `max_contribution`, and one that
/// would cross it is refused.
pub proof fn lemma_contribute_respects_ceiling(
    pool: Pool,
    rec: UserContribution,
    now: i64,
    amount: u64,
)
    ensures
        rec.amount + amount > pool.max_contribution ==> contribute_result(
            pool,
            rec,
            now,
            amount,
        ) is Err,
        contribute_result(pool, rec, now, amount) is Ok ==> ({
            let (p, r) = contribute_result(pool, rec, now, amount)->Ok_0;
            &&& r.amount <= p.max_contribution
            &&& p.max_contribution == pool.max_contribution
        }),
{
}

/// Window enforcement for contributions: one succeeds only inside the inclusive window of
/// an unfinalized pool, and there it succeeds whenever the amount is positive and within the
/// bounds and the running total does not overflow.
pub proof fn lemma_contribute_window(pool: Pool, rec: UserContribution, now: i64, amount: u64)
    ensures
        contribute_result(pool, rec, now, amount) is Ok ==> pool.start_time <= now
            <= pool.end_time && !pool.finalized,
        (pool.start_time <= now <= pool.end_time && !pool.finalized && amount > 0 && amount
            >= pool.min_contribution && rec.amount + amount <= pool.max_contribution
            && pool.total_raised + amount <= u64::MAX) ==> contribute_result(
            pool,
            rec,
            now,
            amount,
        ) is Ok,
{
}

/// Window enforcement for finalization: it succeeds only after the window has closed and
/// only once, and for the pool's authority with enough funds to sweep it always succeeds
/// then. A finalized pool stays finalized.
pub proof fn lemma_finalize_window(ctx: FinalizePool, now: i64)
    ensures
        finalize_result(ctx, now) is Ok ==> now > ctx.pool.end_time && !ctx.pool.finalized
            && finalize_result(ctx, now)->Ok_0.pool.finalized,
        (ctx.authority.bytes@ == ctx.pool.authority.bytes@ && now > ctx.pool.end_time
            && !ctx.pool.finalized && ctx.pool_vault_lamports >= ctx.pool.total_raised
            && ctx.authority_lamports + ctx.pool.total_raised <= u64::MAX) ==> finalize_result(
            ctx,
            now,
        ) is Ok,
        finalize_result(ctx, now) is Ok ==> finalize_result(
            finalize_result(ctx, now)->Ok_0,
            now,
        ) == Err::<FinalizePool, ErrorCode>(ErrorCode::PoolFinalized),
{
}

/// Claim idempotence: once a claim's transfer has gone through, a second claim by the same
/// participant is refused with `NoContribution` and asks for no transfer. Every transfer a
/// claim asks for draws on the pool's own escrow.
pub proof fn lemma_claim_once(ctx: ClaimTokens)
    requires
        claim_result(ctx) is Ok,
    ensures
        claim_result(ctx)->Ok_0.from.bytes@ == ctx.pool.token_vault.bytes@,
        claim_result(settle_result(ctx, true)) == Err::<crate::state::TokenTransfer, ErrorCode>(
            ErrorCode::NoContribution,
        ),
{
}

/// Atomicity under failure: when the transfer of a claim fails the record is unchanged, and
/// a retried claim asks for the very same transfer, after whose success the record is
/// zeroed.
pub proof fn lemma_claim_retry_after_failure(ctx: ClaimTokens)
    requires
        claim_result(ctx) is Ok,
    ensures
        settle_result(ctx, false) == ctx,
        claim_result(settle_result(ctx, false)) == claim_result(ctx),
        settle_result(settle_result(ctx, false), true).user_contribution.amount == 0,
{
}

} // verus!
