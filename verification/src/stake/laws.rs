//! Properties of the staking program that span its instructions.
use vstd::prelude::*;
use vstd::arithmetic::div_mod::{lemma_div_is_ordered, lemma_div_by_multiple, lemma_div_pos_is_pos};
use vstd::arithmetic::mul::{lemma_mul_inequality, lemma_mul_is_commutative, lemma_mul_nonnegative};
use crate::stake::constants::REWARD_DENOMINATOR;
use crate::math::i64_as_u64;
use crate::stake::state::reward_for;
use crate::stake::instructions::{
    Initialize, initialized_state, ClaimReward, reward_claimed, Stake, stake_fits, after_stake, staked_amount,
    fuel_fee, UpdateState, rate_updated,
};

verus! {

/// The program state is set up once: a state that `initialize` wrote is
/// marked initialized, so every later `initialize` is refused.
pub proof fn lemma_initialize_only_once(
    ctx: Initialize,
    reward_per_block: u64,
    fuel_percent: u16,
    is_token2: bool,
    bump: u8,
)
    ensures
        initialized_state(ctx, reward_per_block, fuel_percent, is_token2, bump).initialized,
        initialized_state(ctx, reward_per_block, fuel_percent, is_token2, bump).owner == ctx.creator,
{
}

/// The fuel fee is at most the amount staked when the fuel percentage is at
/// most the denominator, and nothing is kept when it is zero.
pub proof fn lemma_fuel_fee_within_amount(fuel_percentage: u16, amount: u64)
    requires
        fuel_percentage <= REWARD_DENOMINATOR,
    ensures
        0 <= fuel_fee(fuel_percentage, amount) <= amount,
        fuel_percentage == 0 ==> staked_amount(fuel_percentage, amount) == amount,
{
    let f = fuel_percentage as int;
    let a = amount as int;
    lemma_mul_inequality(f, 10000, a);
    lemma_mul_nonnegative(f, a);
    lemma_div_is_ordered(f * a, 10000 * a, 10000);
    lemma_mul_is_commutative(10000, a);
    lemma_div_by_multiple(a, 10000);
    lemma_div_pos_is_pos(f * a, 10000);
}

/// A stake adds the same amount (the amount less the fuel fee) to the
/// user's stake and to the program's total, counts a staker only on its
/// first stake, and then records the signer as the stake's user.
pub proof fn lemma_stake_accounting(ctx: Stake, amount: u64, now: i64)
    requires
        stake_fits(ctx, amount),
    ensures
        ({
            let after = after_stake(ctx, amount, now);
            let added = staked_amount(ctx.app_state.fuel_percentage, amount);
            &&& 0 <= added <= amount
            &&& after.staker.total_amount == ctx.staker.total_amount + added
            &&& after.app_state.total_staked == ctx.app_state.total_staked + added
            &&& ctx.staker.total_amount == 0 ==> after.app_state.staker_counts == ctx.app_state.staker_counts + 1
                && after.staker.user == ctx.signer
            &&& ctx.staker.total_amount != 0 ==> after.app_state.staker_counts == ctx.app_state.staker_counts
                && after.staker.user == ctx.staker.user
            &&& after.staker.last_update == now
        }),
{
    lemma_mul_nonnegative(ctx.app_state.fuel_percentage as int, amount as int);
    lemma_div_pos_is_pos(ctx.app_state.fuel_percentage * amount, 10000);
}

/// Nothing is owed for a stake of zero, nor over a period of no time.
pub proof fn lemma_no_reward_without_stake_or_time(reward_per_block: u64, total_amount: u64, last_update: i64, now: i64)
    ensures
        total_amount == 0 ==> reward_for(reward_per_block, total_amount, last_update, now) == 0,
        last_update == now ==> reward_for(reward_per_block, total_amount, last_update, now) == 0,
{
    let p = i64_as_u64(last_update - now);
    let t = total_amount as int;
    let r = reward_per_block as int;
    assert(t == 0 ==> t * p * r == 0) by (nonlinear_arith);
    assert(p == 0 ==> t * p * r == 0) by (nonlinear_arith);
}

/// A claim restarts the stake's period: right after a claim at `now`,
/// nothing more is owed at `now`.
pub proof fn lemma_claim_restarts_reward(ctx: ClaimReward, now: i64)
    ensures
        reward_for(
            reward_claimed(ctx, now).app_state.reward_per_block,
            reward_claimed(ctx, now).staker.total_amount,
            reward_claimed(ctx, now).staker.last_update,
            now,
        ) == 0,
{
    lemma_no_reward_without_stake_or_time(ctx.app_state.reward_per_block, ctx.staker.total_amount, now, now);
}


// ------------------------------------------------------ totals over stakes

/// The sum of a list of stakes.
pub open spec fn sum_of_stakes(stakes: Seq<u64>) -> int
    decreases stakes.len(),
{
    if stakes.len() == 0 {
        0
    } else {
        sum_of_stakes(stakes.drop_last()) + stakes.last()
    }
}

/// Changing one stake changes the sum by the difference.
proof fn lemma_sum_of_stakes_update(stakes: Seq<u64>, i: int, v: u64)
    requires
        0 <= i < stakes.len(),
    ensures
        sum_of_stakes(stakes.update(i, v)) == sum_of_stakes(stakes) - stakes[i] + v,
    decreases stakes.len(),
{
    let updated = stakes.update(i, v);
    if i == stakes.len() - 1 {
        assert(updated.drop_last() =~= stakes.drop_last());
    } else {
        lemma_sum_of_stakes_update(stakes.drop_last(), i, v);
        assert(updated.drop_last() =~= stakes.drop_last().update(i, v));
    }
}

/// A fresh program state holds no stake: its total is the sum of an empty
/// list of stakes.
pub proof fn lemma_initialized_total_is_empty_sum(
    ctx: Initialize,
    reward_per_block: u64,
    fuel_percent: u16,
    is_token2: bool,
    bump: u8,
)
    ensures
        initialized_state(ctx, reward_per_block, fuel_percent, is_token2, bump).total_staked == sum_of_stakes(
            Seq::<u64>::empty(),
        ),
{
}

/// The accounts after a stake of `amount` at `now`: the stake when it stays
/// within the machine integers, otherwise the accounts as they were, since
/// the overflow aborts the transaction.
pub open spec fn stake_outcome(ctx: Stake, amount: u64, now: i64) -> Stake {
    if stake_fits(ctx, amount) {
        after_stake(ctx, amount, now)
    } else {
        ctx
    }
}

/// The receipt tokens a stake of `amount` mints, nothing when it aborts.
pub open spec fn stake_minted(ctx: Stake, amount: u64) -> int {
    if stake_fits(ctx, amount) {
        staked_amount(ctx.app_state.fuel_percentage, amount)
    } else {
        0
    }
}

/// The program's total stays the sum of all stakes and of the receipt
/// tokens it minted: if, before a stake, `stakes` lists every stake (the
/// staking user's at `i`, zero for a new one) and the total and the minted
/// receipts both equal their sum, then afterwards, whether the stake goes
/// through or aborts, the total equals the sum of the updated list, and so
/// do the minted receipts with this stake's mint.
pub proof fn lemma_stake_keeps_total_equal_to_stakes(
    ctx: Stake,
    amount: u64,
    now: i64,
    stakes: Seq<u64>,
    i: int,
    minted: int,
)
    requires
        0 <= i < stakes.len(),
        stakes[i] == ctx.staker.total_amount,
        ctx.app_state.total_staked == sum_of_stakes(stakes),
        minted == sum_of_stakes(stakes),
    ensures
        ({
            let after = stake_outcome(ctx, amount, now);
            let updated = stakes.update(i, after.staker.total_amount);
            &&& after.app_state.total_staked == sum_of_stakes(updated)
            &&& minted + stake_minted(ctx, amount) == sum_of_stakes(updated)
        }),
{
    let after = stake_outcome(ctx, amount, now);
    lemma_sum_of_stakes_update(stakes, i, after.staker.total_amount);
}

/// Claiming a reward and changing the reward rate move no stake: the stake
/// and the program's total are left as they were.
pub proof fn lemma_other_instructions_keep_stakes(claim: ClaimReward, now: i64, update: UpdateState, reward_per_block: u64)
    ensures
        reward_claimed(claim, now).staker.total_amount == claim.staker.total_amount,
        reward_claimed(claim, now).app_state == claim.app_state,
        rate_updated(update, reward_per_block).app_state.total_staked == update.app_state.total_staked,
{
}


// ------------------------------------------------- formulas in basis points

/// The fuel fee is the fuel percentage in basis points of the amount,
/// rounded down: a stake of `amount` mints and adds to the stake and to the
/// program's total exactly `amount - fuel_percentage * amount / 10000`.
pub proof fn lemma_stake_fee_in_basis_points(ctx: Stake, amount: u64, now: i64)
    ensures
        staked_amount(ctx.app_state.fuel_percentage, amount) == amount - (ctx.app_state.fuel_percentage as int
            * amount) / 10000,
        stake_fits(ctx, amount) ==> {
            let after = after_stake(ctx, amount, now);
            let added = amount - (ctx.app_state.fuel_percentage as int * amount) / 10000;
            &&& after.staker.total_amount == ctx.staker.total_amount + added
            &&& after.app_state.total_staked == ctx.app_state.total_staked + added
        },
{
}

/// For a stake last updated at or after `now`, the reward is the stake times
/// the seconds from `now` to `last_update` times the rate, in ten-thousandths,
/// rounded down.
pub proof fn lemma_reward_formula(reward_per_block: u64, total_amount: u64, last_update: i64, now: i64)
    requires
        last_update >= now,
    ensures
        reward_for(reward_per_block, total_amount, last_update, now) == (total_amount as int * (last_update - now)
            * reward_per_block) / 10000,
{
}


/// `initialize` records the creator as owner, the two mints, the rate, the
/// fuel percentage, the token program flag and the bump, and starts every
/// counter at zero.
pub proof fn lemma_initialize_writes_its_arguments(
    ctx: Initialize,
    reward_per_block: u64,
    fuel_percent: u16,
    is_token2: bool,
    bump: u8,
)
    ensures
        ({
            let s = initialized_state(ctx, reward_per_block, fuel_percent, is_token2, bump);
            &&& s.owner == ctx.creator && s.paid == ctx.paid && s.s_paid == ctx.s_paid
            &&& s.reward_per_block == reward_per_block && s.fuel_percentage == fuel_percent
            &&& s.is_token2022 == is_token2 && s.bump == bump
            &&& s.total_staked == 0 && s.reward_amount == 0 && s.staker_counts == 0 && s.initialized
        }),
{
}

} // verus!
