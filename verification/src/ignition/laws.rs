//! Properties of the launchpad that span its computations and instructions.
use vstd::prelude::*;
use vstd::arithmetic::div_mod::{lemma_div_is_ordered, lemma_div_by_multiple, lemma_div_pos_is_pos};
use vstd::arithmetic::mul::{lemma_mul_inequality, lemma_mul_is_commutative, lemma_mul_nonnegative};
use vstd::arithmetic::power::pow;
use crate::math::{i64_as_u64, div_toward_zero};
use crate::stake::constants::MIN_STAKE_AMOUNT;
use crate::ignition::constants::{DENOMINATOR, MAX_TGE_DATE_ADJUSTMENT_ATTEMPTS};
use crate::ignition::error::ErrCode;
use crate::ignition::state::{
    Pool, tge_amount, vesting_start, release_index, vested_amount, claimable_amount, offer_amount_for,
};
use crate::ignition::instructions::{
    CreatePool, create_pool_check, created_pool, ToggleClaimable, toggled, is_pool_owner, UpdateTgeDate,
    update_tge_date_check, tge_date_moved, BuyInEarlyPool, buy_in_early_pool_fits, buy_in_early_pool_check,
    after_early_purchase, early_net, early_offer, ClaimOffer, claim_offer_check, RefundPurchase,
    refund_purchase_check, refunded, withdraw_purchase_fits, project_fee, FundOffer, funded_with,
    EmergencyCancel, cancelled, FinalizePool, finalized, PoolInstruction, pool_after, pool_after_all,
    WithdrawOffer, withdraw_offer_check,
};

verus! {

// ------------------------------------------------------------------ vesting

/// The share released at the token generation event is at most the whole
/// allocation when the pool's percentage is at most the denominator.
pub proof fn lemma_tge_amount_within_total(pool: Pool, total_amount: u64)
    requires
        pool.tge_percentage <= DENOMINATOR,
    ensures
        0 <= tge_amount(pool, total_amount) <= total_amount,
{
    let t = total_amount as int;
    let p = pool.tge_percentage as int;
    lemma_mul_is_commutative(t, p);
    lemma_mul_inequality(p, 10000, t);
    lemma_mul_nonnegative(t, p);
    lemma_div_is_ordered(t * p, t * 10000, 10000);
    lemma_div_by_multiple(t, 10000);
    lemma_div_pos_is_pos(t * p, 10000);
}

/// From the vesting start on, with a positive frequency, the release index
/// counts whole periods elapsed, plus one.
proof fn lemma_release_index_from_start(pool: Pool, now: i64)
    requires
        pool.vesting_frequency > 0,
        now >= vesting_start(pool),
    ensures
        release_index(pool, now) == (now - vesting_start(pool)) / (pool.vesting_frequency as int) + 1,
        release_index(pool, now) >= 1,
        i64_as_u64(release_index(pool, now)) == release_index(pool, now),
{
    let e = now - pool.tge_date - pool.vesting_cliff;
    assert(div_toward_zero(e, pool.vesting_frequency as int) == e / (pool.vesting_frequency as int));
    lemma_div_pos_is_pos(e, pool.vesting_frequency as int);
}

/// `steps` of `number_of_vesting` equal parts of `rest` make at most `rest`.
proof fn lemma_partial_release_within(steps: int, rest: int, number_of_vesting: int)
    requires
        0 <= steps < number_of_vesting,
        0 <= rest,
    ensures
        0 <= (steps * rest) / number_of_vesting <= rest,
{
    lemma_mul_inequality(steps, number_of_vesting, rest);
    lemma_mul_nonnegative(steps, rest);
    lemma_div_is_ordered(steps * rest, number_of_vesting * rest, number_of_vesting);
    lemma_div_by_multiple(rest, number_of_vesting);
    lemma_mul_is_commutative(rest, number_of_vesting);
    lemma_div_pos_is_pos(steps * rest, number_of_vesting);
}

/// What is unlocked lies between the share released at the token
/// generation event and the whole allocation.
pub proof fn lemma_vested_within_total(pool: Pool, total_amount: u64, now: i64)
    requires
        pool.vesting_frequency > 0,
        pool.tge_percentage <= DENOMINATOR,
    ensures
        tge_amount(pool, total_amount) <= vested_amount(pool, total_amount, now) <= total_amount,
{
    lemma_tge_amount_within_total(pool, total_amount);
    if now >= vesting_start(pool) {
        lemma_release_index_from_start(pool, now);
        let ri = release_index(pool, now);
        if ri < pool.number_of_vesting {
            lemma_partial_release_within(
                ri,
                total_amount - tge_amount(pool, total_amount),
                pool.number_of_vesting as int,
            );
        }
    }
}

/// Vesting never takes back: what is unlocked at a later time is at least
/// what was unlocked at an earlier one.
pub proof fn lemma_vesting_is_monotonic(pool: Pool, total_amount: u64, earlier: i64, later: i64)
    requires
        pool.vesting_frequency > 0,
        pool.tge_percentage <= DENOMINATOR,
        earlier <= later,
    ensures
        vested_amount(pool, total_amount, earlier) <= vested_amount(pool, total_amount, later),
{
    lemma_vested_within_total(pool, total_amount, earlier);
    lemma_vested_within_total(pool, total_amount, later);
    if earlier >= vesting_start(pool) {
        lemma_release_index_from_start(pool, earlier);
        lemma_release_index_from_start(pool, later);
        let f = pool.vesting_frequency as int;
        let r1 = release_index(pool, earlier);
        let r2 = release_index(pool, later);
        lemma_div_is_ordered(earlier - vesting_start(pool), later - vesting_start(pool), f);
        assert(r1 <= r2);
        if r2 < pool.number_of_vesting {
            let rest = total_amount - tge_amount(pool, total_amount);
            let n = pool.number_of_vesting as int;
            lemma_mul_inequality(r1, r2, rest);
            lemma_div_is_ordered(r1 * rest, r2 * rest, n);
        }
    }
}

/// From the last release on (the vesting start plus `number_of_vesting - 1`
/// periods), everything is unlocked.
pub proof fn lemma_fully_vested(pool: Pool, total_amount: u64, now: i64)
    requires
        pool.vesting_frequency > 0,
        now >= vesting_start(pool),
        now - vesting_start(pool) >= (pool.number_of_vesting - 1) * pool.vesting_frequency,
    ensures
        vested_amount(pool, total_amount, now) == total_amount,
{
    lemma_release_index_from_start(pool, now);
    let f = pool.vesting_frequency as int;
    if pool.number_of_vesting >= 1 {
        let k = (pool.number_of_vesting - 1) as int;
        lemma_mul_is_commutative(k, f);
        lemma_div_is_ordered(k * f, now - vesting_start(pool), f);
        lemma_div_by_multiple(k, f);
    }
}

/// A buyer can never claim more than what is left of its allocation.
pub proof fn lemma_claim_within_remaining(pool: Pool, total_amount: u64, claimed_amount: u64, now: i64)
    requires
        pool.vesting_frequency > 0,
        pool.tge_percentage <= DENOMINATOR,
        claimed_amount <= total_amount,
    ensures
        claimable_amount(pool, total_amount, claimed_amount, now) <= total_amount - claimed_amount,
{
    lemma_vested_within_total(pool, total_amount, now);
}


// ------------------------------------------------------------ offer amount

/// Paying more never buys fewer offered tokens.
pub proof fn lemma_offer_amount_is_monotonic(
    rate: u64,
    smaller: u64,
    larger: u64,
    purchase_decimals: u8,
    offer_decimals: u8,
)
    requires
        smaller <= larger,
    ensures
        offer_amount_for(rate, smaller, purchase_decimals, offer_decimals) <= offer_amount_for(
            rate,
            larger,
            purchase_decimals,
            offer_decimals,
        ),
{
    vstd::arithmetic::power::lemma_pow_positive(10, purchase_decimals as nat);
    vstd::arithmetic::power::lemma_pow_positive(10, offer_decimals as nat);
    let d = pow(10, purchase_decimals as nat);
    let m = pow(10, offer_decimals as nat);
    lemma_mul_inequality(smaller as int, larger as int, rate as int);
    lemma_div_is_ordered(smaller * rate, larger * rate, d);
    lemma_mul_inequality((smaller * rate) / d, (larger * rate) / d, m);
}

// -------------------------------------------------------------- create_pool

/// A pool that `create_pool` accepts has its fee and proportions within the
/// denominator, and, when its times fit in `i64`, its windows in order: the
/// early sale, then the open sale starting where the early sale ends, then
/// the token generation date.
pub proof fn lemma_created_pool_is_well_ordered(
    ctx: CreatePool,
    uints: [u64; 18],
    offer_decimals: u8,
    is_token22: bool,
    private: bool,
    bump: u8,
)
    requires
        create_pool_check(uints@) is None,
        uints@[13] <= i64::MAX,
    ensures
        ({
            let pool = created_pool(ctx, uints@, offer_decimals, is_token22, private, bump);
            &&& pool.token_fee_percentage <= DENOMINATOR
            &&& pool.early_pool_proportion <= DENOMINATOR
            &&& pool.open_pool_proportion <= DENOMINATOR
            &&& pool.early_start <= pool.early_end
            &&& pool.early_end == pool.open_start
            &&& pool.open_start <= pool.open_end
            &&& pool.open_end <= pool.tge_date
        }),
{
}

// ------------------------------------------------------ owner-only switches

/// Switching claiming twice gives back the pool as it was.
pub proof fn lemma_toggle_claimable_twice(ctx: ToggleClaimable)
    ensures
        is_pool_owner(toggled(ctx).pool, toggled(ctx).owner) == is_pool_owner(ctx.pool, ctx.owner),
        toggled(toggled(ctx)) == ctx,
{
}

/// The token generation date moves at most
/// `MAX_TGE_DATE_ADJUSTMENT_ATTEMPTS` times: every move counts one attempt,
/// and once the count reaches the limit every further move is refused.
pub proof fn lemma_tge_date_moves_are_limited(ctx: UpdateTgeDate, tge_date: i64)
    requires
        ctx.pool.udpate_tge_attempts <= MAX_TGE_DATE_ADJUSTMENT_ATTEMPTS,
    ensures
        ctx.pool.udpate_tge_attempts == MAX_TGE_DATE_ADJUSTMENT_ATTEMPTS ==> update_tge_date_check(
            ctx,
            tge_date,
        ) is Some,
        update_tge_date_check(ctx, tge_date) is None ==> {
            let moved = tge_date_moved(ctx, tge_date);
            &&& moved.pool.udpate_tge_attempts == ctx.pool.udpate_tge_attempts + 1
            &&& moved.pool.udpate_tge_attempts <= MAX_TGE_DATE_ADJUSTMENT_ATTEMPTS
            &&& moved.pool.tge_date >= moved.pool.open_end
        },
{
}

// --------------------------------------------------------- buy_in_early_pool

/// An early purchase splits the amount paid into fee and net part; the
/// buyer's principal and the pool's collections grow by the net part, the
/// buyer's and the pool's fees by the fee, and the buyer's allocation, the
/// pool's tokens sold and sold in the early pool by the same number of
/// offered tokens.
pub proof fn lemma_early_purchase_accounting(ctx: BuyInEarlyPool, amount: u64, now: i64)
    requires
        buy_in_early_pool_fits(ctx, amount, now),
        buy_in_early_pool_check(ctx, amount, now) is None,
    ensures
        ({
            let after = after_early_purchase(ctx, amount);
            let net = after.buyer.principal - ctx.buyer.principal;
            let fee = after.buyer.fee - ctx.buyer.fee;
            let offer = after.buyer.total_amount - ctx.buyer.total_amount;
            &&& 0 <= fee
            &&& 0 <= net
            &&& net + fee == amount
            &&& after.buyer.purchase_in_early_pool - ctx.buyer.purchase_in_early_pool == net
            &&& after.pool.total_collect_amount - ctx.pool.total_collect_amount == net
            &&& after.pool.collect_in_early_pool - ctx.pool.collect_in_early_pool == net
            &&& after.pool.total_fee - ctx.pool.total_fee == fee
            &&& after.pool.total_sold - ctx.pool.total_sold == offer
            &&& after.pool.sold_in_early_pool - ctx.pool.sold_in_early_pool == offer
        }),
{
    lemma_div_pos_is_pos(amount as int, 10000);
    lemma_mul_nonnegative((amount as int) / 10000, ctx.pool.early_participant_fee as int);
    let net = early_net(ctx.pool, amount);
    let rate = ctx.pool.offer_token.rate as int;
    vstd::arithmetic::power::lemma_pow_positive(10, ctx.purchase_mint_decimals as nat);
    vstd::arithmetic::power::lemma_pow_positive(10, ctx.offer_mint_decimals as nat);
    lemma_mul_nonnegative((net as u64) as int, rate);
    lemma_div_pos_is_pos((net as u64) * rate, pow(10, ctx.purchase_mint_decimals as nat));
    lemma_mul_nonnegative(
        ((net as u64) * rate) / pow(10, ctx.purchase_mint_decimals as nat),
        pow(10, ctx.offer_mint_decimals as nat),
    );
    assert(early_offer(ctx, amount) >= 0);
}

/// Early purchases keep the early-pool collection within the pool's whole
/// collection, and the early-pool sales within all sales.
pub proof fn lemma_early_purchase_keeps_early_within_total(ctx: BuyInEarlyPool, amount: u64, now: i64)
    requires
        buy_in_early_pool_fits(ctx, amount, now),
        buy_in_early_pool_check(ctx, amount, now) is None,
        ctx.pool.collect_in_early_pool <= ctx.pool.total_collect_amount,
        ctx.pool.sold_in_early_pool <= ctx.pool.total_sold,
    ensures
        after_early_purchase(ctx, amount).pool.collect_in_early_pool <= after_early_purchase(
            ctx,
            amount,
        ).pool.total_collect_amount,
        after_early_purchase(ctx, amount).pool.sold_in_early_pool <= after_early_purchase(
            ctx,
            amount,
        ).pool.total_sold,
{
    lemma_early_purchase_accounting(ctx, amount, now);
}

/// An early purchase goes through only during the early window of a funded
/// pool, for a buyer holding at least `MIN_STAKE_AMOUNT` in the staking
/// program, whose earlier net purchases in the early pool plus the new net
/// purchase stay within the early pool's maximum, in purchase-token units.
pub proof fn lemma_early_purchase_conditions(ctx: BuyInEarlyPool, amount: u64, now: i64)
    requires
        buy_in_early_pool_check(ctx, amount, now) is None,
    ensures
        ctx.pool.early_start <= now <= ctx.pool.early_end,
        ctx.pool.funded,
        ctx.staker.total_amount >= MIN_STAKE_AMOUNT,
        ctx.buyer.purchase_in_early_pool + early_net(ctx.pool, amount) <= ctx.pool.max_buy_in_early_pool,
{
}

/// However many early purchases a buyer makes, its net early purchases stay
/// within the early pool's maximum, in purchase-token units.
pub proof fn lemma_early_purchases_stay_within_limit(ctx: BuyInEarlyPool, amount: u64, now: i64)
    requires
        buy_in_early_pool_fits(ctx, amount, now),
        buy_in_early_pool_check(ctx, amount, now) is None,
    ensures
        after_early_purchase(ctx, amount).buyer.purchase_in_early_pool <= ctx.pool.max_buy_in_early_pool,
        after_early_purchase(ctx, amount).pool.max_buy_in_early_pool == ctx.pool.max_buy_in_early_pool,
{
}

// --------------------------------------------------------------- claim_offer

/// A claim goes through only on a claimable pool of a sale that was not
/// cancelled, from the token generation date on.
pub proof fn lemma_claim_conditions(ctx: ClaimOffer, now: i64)
    requires
        claim_offer_check(ctx, now) is None,
    ensures
        ctx.pool.claimable,
        !ctx.pool.emergency_cancelled,
        now >= ctx.pool.tge_date,
{
}

/// A cancelled sale pays no claims, so a buyer is never both refunded and
/// paid: refunds need a cancelled pool, claims need one that is not, and a
/// cancellation is never undone (`lemma_cancellation_is_permanent`).
pub proof fn lemma_no_claim_on_cancelled_pool(ctx: ClaimOffer, now: i64, refund: RefundPurchase, refund_now: i64)
    requires
        ctx.pool.emergency_cancelled,
    ensures
        claim_offer_check(ctx, now) == Some(ErrCode::NotClaimable),
        refund_purchase_check(refund, refund_now) is None ==> refund.pool.emergency_cancelled,
{
}

// ----------------------------------------------------------- refund_purchase

/// A buyer is refunded at most once: after a refund, every further refund
/// of the same buyer is refused.
pub proof fn lemma_refund_only_once(ctx: RefundPurchase, now: i64, later: i64)
    requires
        refund_purchase_check(ctx, now) is None,
    ensures
        refund_purchase_check(refunded(ctx), later) == Some(ErrCode::NotRefundable),
{
}

/// A refund goes only to a buyer of a cancelled, not claimable pool, from
/// the token generation date on, who has claimed nothing and was not
/// refunded before.
pub proof fn lemma_refund_conditions(ctx: RefundPurchase, now: i64)
    requires
        refund_purchase_check(ctx, now) is None,
    ensures
        ctx.pool.emergency_cancelled,
        !ctx.pool.claimable,
        now >= ctx.pool.tge_date,
        ctx.buyer.claimed_amount == 0,
        !ctx.buyer.refunded,
{
}

// --------------------------------------------------------- withdraw_purchase

/// Withdrawing a pool's purchase tokens hands out exactly what the pool
/// collected plus the buyers' fees: the reward fund and the owner's part
/// add up to it.
pub proof fn lemma_withdraw_purchase_hands_out_everything(pool: Pool)
    requires
        withdraw_purchase_fits(pool),
    ensures
        (project_fee(pool) + pool.total_fee) + (pool.total_collect_amount - project_fee(pool))
            == pool.total_collect_amount + pool.total_fee,
        0 <= project_fee(pool),
{
    lemma_mul_nonnegative(pool.total_collect_amount as int, pool.token_fee_percentage as int);
    lemma_div_pos_is_pos(pool.total_collect_amount * pool.token_fee_percentage, 10000);
}


// ------------------------------------------------ sequences of instructions

/// Only `fund_offer` touches a pool's funding: every other instruction
/// leaves `funded` and `total_funded_amount` as they were, and `fund_offer`
/// only sets `funded` and adds to the total.
pub proof fn lemma_only_fund_offer_changes_funding(pool: Pool, ix: PoolInstruction)
    ensures
        !(ix is FundOffer) ==> pool_after(pool, ix).funded == pool.funded && pool_after(
            pool,
            ix,
        ).total_funded_amount == pool.total_funded_amount,
        pool.funded ==> pool_after(pool, ix).funded,
        pool_after(pool, ix).total_funded_amount >= pool.total_funded_amount,
{
}

/// Over any sequence of instructions on a pool, the pool never becomes
/// unfunded once funded, and its funded total never falls.
pub proof fn lemma_funding_never_falls(pool: Pool, ixs: Seq<PoolInstruction>)
    ensures
        pool.funded ==> pool_after_all(pool, ixs).funded,
        pool_after_all(pool, ixs).total_funded_amount >= pool.total_funded_amount,
    decreases ixs.len(),
{
    if ixs.len() > 0 {
        lemma_only_fund_offer_changes_funding(pool, ixs[0]);
        lemma_funding_never_falls(pool_after(pool, ixs[0]), ixs.drop_first());
    }
}


/// Over any sequence of instructions on a pool, a cancelled sale stays
/// cancelled.
pub proof fn lemma_cancellation_is_permanent(pool: Pool, ixs: Seq<PoolInstruction>)
    requires
        pool.emergency_cancelled,
    ensures
        pool_after_all(pool, ixs).emergency_cancelled,
    decreases ixs.len(),
{
    if ixs.len() > 0 {
        lemma_cancellation_is_permanent(pool_after(pool, ixs[0]), ixs.drop_first());
    }
}


// ------------------------------------------ exact conditions of acceptance

/// An early purchase is accepted exactly when the stake belongs to the
/// signer, the pool sells for the purchase mint passed in, `now` lies in the
/// early window, the pool is funded, the buyer's earlier early purchases
/// plus the amount less the participant fee (the fee rate in basis points,
/// applied to whole ten-thousandths of the amount) stay within the early
/// pool's maximum, and the buyer's stake is at least `MIN_STAKE_AMOUNT`.
/// An accepted purchase adds the amount less that fee to the buyer's
/// principal and early purchases and to the pool's collections, and the fee
/// to the buyer's and the pool's fees.
pub proof fn lemma_early_purchase_accepted_exactly(ctx: BuyInEarlyPool, amount: u64, now: i64)
    ensures
        buy_in_early_pool_check(ctx, amount, now) is None <==> {
            &&& ctx.staker.user@ == ctx.signer@
            &&& ctx.pool.purchase_token@ == ctx.purchase_mint@
            &&& ctx.pool.early_start <= now <= ctx.pool.early_end
            &&& ctx.pool.funded
            &&& ctx.buyer.purchase_in_early_pool + (amount - (amount as int / 10000) * ctx.pool.early_participant_fee)
                <= ctx.pool.max_buy_in_early_pool
            &&& ctx.staker.total_amount >= 120000
        },
        buy_in_early_pool_check(ctx, amount, now) is None && buy_in_early_pool_fits(ctx, amount, now) ==> {
            let after = after_early_purchase(ctx, amount);
            let fee = (amount as int / 10000) * ctx.pool.early_participant_fee;
            &&& after.buyer.principal == ctx.buyer.principal + amount - fee
            &&& after.buyer.purchase_in_early_pool == ctx.buyer.purchase_in_early_pool + amount - fee
            &&& after.buyer.fee == ctx.buyer.fee + fee
            &&& after.pool.total_collect_amount == ctx.pool.total_collect_amount + amount - fee
            &&& after.pool.collect_in_early_pool == ctx.pool.collect_in_early_pool + amount - fee
            &&& after.pool.total_fee == ctx.pool.total_fee + fee
        },
{
    if buy_in_early_pool_check(ctx, amount, now) is None && buy_in_early_pool_fits(ctx, amount, now) {
        lemma_early_purchase_accounting(ctx, amount, now);
    }
}

/// A claim is accepted exactly when the pool is claimable, the sale was not
/// cancelled and the token generation date has come.
pub proof fn lemma_claim_accepted_exactly(ctx: ClaimOffer, now: i64)
    ensures
        claim_offer_check(ctx, now) is None <==> (ctx.pool.claimable && !ctx.pool.emergency_cancelled && now
            >= ctx.pool.tge_date),
{
}

/// A refund is accepted exactly when the pool sells for the purchase mint
/// passed in, the sale was cancelled, the pool is not claimable, the token
/// generation date has come, and the buyer has claimed nothing and was not
/// refunded; whatever the pool's other fields hold.  An accepted refund
/// marks the buyer refunded and changes nothing else.
pub proof fn lemma_refund_accepted_exactly(ctx: RefundPurchase, now: i64)
    ensures
        refund_purchase_check(ctx, now) is None <==> {
            &&& ctx.pool.purchase_token@ == ctx.purchase_mint@
            &&& ctx.pool.emergency_cancelled
            &&& !ctx.pool.claimable
            &&& now >= ctx.pool.tge_date
            &&& ctx.buyer.claimed_amount == 0
            &&& !ctx.buyer.refunded
        },
        refunded(ctx).buyer.refunded,
        refunded(ctx).buyer.principal == ctx.buyer.principal,
        refunded(ctx).buyer.fee == ctx.buyer.fee,
        refunded(ctx).buyer.claimed_amount == ctx.buyer.claimed_amount,
        refunded(ctx).buyer.total_amount == ctx.buyer.total_amount,
        refunded(ctx).pool == ctx.pool,
        refunded(ctx).purchase_mint == ctx.purchase_mint,
{
}

/// Taking back the offered tokens is accepted exactly when the signer owns
/// the pool, the token generation date has come and the sale was
/// cancelled; whatever the pool's sale counters hold.
pub proof fn lemma_withdraw_offer_accepted_exactly(ctx: WithdrawOffer, now: i64)
    ensures
        withdraw_offer_check(ctx, now) is None <==> (ctx.pool.owner@ == ctx.owner@ && now >= ctx.pool.tge_date
            && ctx.pool.emergency_cancelled),
{
}

/// The token generation date moves exactly when the signer owns the pool,
/// the new date is not before the end of the open sale, and fewer than
/// `MAX_TGE_DATE_ADJUSTMENT_ATTEMPTS` moves were made.
pub proof fn lemma_tge_date_update_accepted_exactly(ctx: UpdateTgeDate, tge_date: i64)
    ensures
        update_tge_date_check(ctx, tge_date) is None <==> (ctx.pool.owner@ == ctx.owner@ && ctx.pool.open_end
            <= tge_date && ctx.pool.udpate_tge_attempts < 2),
        update_tge_date_check(ctx, tge_date) is None ==> tge_date_moved(ctx, tge_date).pool.tge_date == tge_date,
{
}

/// A pool is created exactly when the token fee and the two pool
/// proportions, each taken as `u16`, are at most 10000 and the early start,
/// the open start, the open end and the token generation date are in
/// non-decreasing order.
pub proof fn lemma_create_pool_accepted_exactly(uints: [u64; 18])
    ensures
        create_pool_check(uints@) is None <==> {
            &&& (uints@[3] as u16) <= 10000
            &&& (uints@[6] as u16) <= 10000
            &&& (uints@[7] as u16) <= 10000
            &&& uints@[9] <= uints@[10] <= uints@[11] <= uints@[13]
        },
{
}

/// The launchpad's cut of a pool's collection is the token fee in basis
/// points of what was collected, rounded down.
pub proof fn lemma_project_fee_in_basis_points(pool: Pool)
    ensures
        project_fee(pool) == (pool.total_collect_amount as int * pool.token_fee_percentage) / 10000,
{
}


/// Funding by the owner adds the amount to the funded total and marks the
/// pool funded; no other field of the pool changes.
pub proof fn lemma_funding_adds_the_amount(ctx: FundOffer, amount: u64)
    requires
        ctx.pool.total_funded_amount + amount <= u64::MAX,
    ensures
        funded_with(ctx, amount).pool.total_funded_amount == ctx.pool.total_funded_amount + amount,
        funded_with(ctx, amount).pool.funded,
        (Pool {
            total_funded_amount: ctx.pool.total_funded_amount,
            funded: ctx.pool.funded,
            ..funded_with(ctx, amount).pool
        }) == ctx.pool,
{
}

/// The owner's switches each change one flag of the pool and nothing else:
/// cancelling sets `emergency_cancelled`, finalizing sets `claimable`,
/// toggling flips `claimable`.
pub proof fn lemma_owner_switches_change_one_flag(c: EmergencyCancel, f: FinalizePool, t: ToggleClaimable)
    ensures
        cancelled(c).pool.emergency_cancelled,
        (Pool { emergency_cancelled: c.pool.emergency_cancelled, ..cancelled(c).pool }) == c.pool,
        finalized(f).pool.claimable,
        (Pool { claimable: f.pool.claimable, ..finalized(f).pool }) == f.pool,
        toggled(t).pool.claimable != t.pool.claimable,
        (Pool { claimable: t.pool.claimable, ..toggled(t).pool }) == t.pool,
{
}

/// Offered tokens bought: the purchase times the rate, divided by ten to
/// the purchase token's decimals (rounding down), times ten to the offered
/// token's decimals.
pub proof fn lemma_offer_amount_formula(rate: u64, purchase_amount: u64, purchase_decimals: u8, offer_decimals: u8)
    ensures
        offer_amount_for(rate, purchase_amount, purchase_decimals, offer_decimals) == (purchase_amount as int * rate)
            / pow(10, purchase_decimals as nat) * pow(10, offer_decimals as nat),
{
}

/// The vesting schedule in terms of the pool's fields, for a positive
/// frequency: before `tge_date + vesting_cliff` the share
/// `total * tge_percentage / 10000` is unlocked; from then on, after `k`
/// whole periods, `k + 1` of `number_of_vesting` equal steps of the rest are
/// unlocked too (rounding down), or everything once `k + 1` reaches
/// `number_of_vesting`.
pub proof fn lemma_vesting_schedule(pool: Pool, total_amount: u64, now: i64)
    requires
        pool.vesting_frequency > 0,
    ensures
        ({
            let tge = (total_amount as int * pool.tge_percentage) / 10000;
            let start = pool.tge_date + pool.vesting_cliff;
            let steps = (now - start) / (pool.vesting_frequency as int) + 1;
            &&& now < start ==> vested_amount(pool, total_amount, now) == tge
            &&& now >= start && steps >= pool.number_of_vesting ==> vested_amount(pool, total_amount, now)
                == total_amount
            &&& now >= start && steps < pool.number_of_vesting ==> vested_amount(pool, total_amount, now) == (steps
                * (total_amount - tge)) / (pool.number_of_vesting as int) + tge
        }),
        claimable_amount(pool, total_amount, 0, now) == vested_amount(pool, total_amount, now) || total_amount == 0,
{
    if now >= vesting_start(pool) {
        lemma_release_index_from_start(pool, now);
    }
}

} // verus!
