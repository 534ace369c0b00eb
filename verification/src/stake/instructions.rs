//! Instructions of the staking program, as transitions of the accounts they
//! read and write.
use vstd::prelude::*;
use crate::key::Key;
use crate::math::lemma_u64_product_fits_u128;
use crate::transfer::{TokenTransfer, transfer_for, make_transfer};
use crate::stake::constants::REWARD_DENOMINATOR;
use crate::stake::error::ErrorCode;
use crate::stake::state::{AppState, Staker, reward_for, reward_defined, reward_in_range};

verus! {

// ---------------------------------------------------------------- initialize

/// Accounts of `initialize`: the creator, the staked token's mint, the
/// receipt token's mint and the fresh program state.
#[derive(Clone, Copy, Debug)]
pub struct Initialize {
    pub creator: Key,
    pub paid: Key,
    pub s_paid: Key,
    pub app_state: AppState,
}

/// The program state that `initialize` writes.
pub open spec fn initialized_state(
    ctx: Initialize,
    reward_per_block: u64,
    fuel_percent: u16,
    is_token2: bool,
    bump: u8,
) -> AppState {
    AppState {
        total_staked: 0,
        reward_per_block,
        reward_amount: 0,
        staker_counts: 0,
        owner: ctx.creator,
        initialized: true,
        s_paid: ctx.s_paid,
        paid: ctx.paid,
        fuel_percentage: fuel_percent,
        is_token2022: is_token2,
        bump,
    }
}

/// Sets up the program state once: the creator becomes its owner and every
/// counter starts at zero.  A second call fails with `Initialized` and
/// changes nothing.
pub fn initialize_handler(
    ctx: &mut Initialize,
    reward_per_block: u64,
    fuel_percent: u16,
    is_token2: bool,
    bump: u8,
) -> (r: Result<(), ErrorCode>)
    ensures
        old(ctx).app_state.initialized ==> r == Err::<(), ErrorCode>(ErrorCode::Initialized)
            && *final(ctx) == *old(ctx),
        !old(ctx).app_state.initialized ==> r == Ok::<(), ErrorCode>(())
            && *final(ctx) == (Initialize {
                app_state: initialized_state(*old(ctx), reward_per_block, fuel_percent, is_token2, bump),
                ..*old(ctx)
            }),
{
    if ctx.app_state.initialized {
        return Err(ErrorCode::Initialized);
    }
    ctx.app_state.initialized = true;
    ctx.app_state.owner = ctx.creator;
    ctx.app_state.reward_per_block = reward_per_block;
    ctx.app_state.staker_counts = 0;
    ctx.app_state.reward_amount = 0;
    ctx.app_state.total_staked = 0;
    ctx.app_state.paid = ctx.paid;
    ctx.app_state.s_paid = ctx.s_paid;
    ctx.app_state.fuel_percentage = fuel_percent;
    ctx.app_state.is_token2022 = is_token2;
    ctx.app_state.bump = bump;
    Ok(())
}

// -------------------------------------------------------------- update_state

/// Accounts of `update_state`: the signer and the program state it owns.
#[derive(Clone, Copy, Debug)]
pub struct UpdateState {
    pub owner: Key,
    pub app_state: AppState,
}

/// The program state with `reward_per_block` as its new rate.
pub open spec fn rate_updated(ctx: UpdateState, reward_per_block: u64) -> UpdateState {
    UpdateState { app_state: AppState { reward_per_block, ..ctx.app_state }, ..ctx }
}

/// The owner sets a new reward per block; anyone else is refused.
pub fn update_state_handler(ctx: &mut UpdateState, reward_per_block: u64) -> (r: Result<(), ErrorCode>)
    ensures
        old(ctx).app_state.owner@ != old(ctx).owner@ ==> r == Err::<(), ErrorCode>(
            ErrorCode::ConstraintHasOne,
        ) && *final(ctx) == *old(ctx),
        old(ctx).app_state.owner@ == old(ctx).owner@ ==> r == Ok::<(), ErrorCode>(())
            && *final(ctx) == rate_updated(*old(ctx), reward_per_block),
{
    if !ctx.app_state.owner.same_as(&ctx.owner) {
        return Err(ErrorCode::ConstraintHasOne);
    }
    ctx.app_state.reward_per_block = reward_per_block;
    Ok(())
}

// -------------------------------------------------------------- claim_reward

/// Accounts of `claim_reward`: the signer, its stake and the program state.
#[derive(Clone, Copy, Debug)]
pub struct ClaimReward {
    pub user: Key,
    pub staker: Staker,
    pub app_state: AppState,
}

/// The accounts after a claim at `now`: the stake's period restarts.
pub open spec fn reward_claimed(ctx: ClaimReward, now: i64) -> ClaimReward {
    ClaimReward { staker: Staker { last_update: now, ..ctx.staker }, ..ctx }
}

/// Whether the claim in `ctx` at `now` stays within the machine integers.
pub fn claim_reward_in_range(ctx: &ClaimReward, now: i64) -> (r: bool)
    ensures
        r == (ctx.staker.user@ == ctx.user@ ==> reward_defined(
            ctx.app_state.reward_per_block,
            ctx.staker.total_amount,
            ctx.staker.last_update,
            now,
        )),
{
    !ctx.staker.user.same_as(&ctx.user) || reward_in_range(
        ctx.app_state.reward_per_block,
        ctx.staker.total_amount,
        ctx.staker.last_update,
        now,
    )
}

/// Pays the stake's reward out of the reward pot and restarts its period at
/// `now`.  Only the stake's own user may claim.
pub fn claim_reward_handler(ctx: &mut ClaimReward, now: i64) -> (r: Result<TokenTransfer, ErrorCode>)
    requires
        old(ctx).staker.user@ == old(ctx).user@ ==> reward_defined(
            old(ctx).app_state.reward_per_block,
            old(ctx).staker.total_amount,
            old(ctx).staker.last_update,
            now,
        ),
    ensures
        old(ctx).staker.user@ != old(ctx).user@ ==> r == Err::<TokenTransfer, ErrorCode>(
            ErrorCode::ConstraintHasOne,
        ) && *final(ctx) == *old(ctx),
        old(ctx).staker.user@ == old(ctx).user@ ==> {
            &&& r matches Ok(TokenTransfer::Transfer { amount })
            &&& amount == reward_for(
                old(ctx).app_state.reward_per_block,
                old(ctx).staker.total_amount,
                old(ctx).staker.last_update,
                now,
            )
            &&& *final(ctx) == reward_claimed(*old(ctx), now)
        },
{
    if !ctx.staker.user.same_as(&ctx.user) {
        return Err(ErrorCode::ConstraintHasOne);
    }
    let amount: u64 = ctx.app_state.reward_at(ctx.staker.total_amount, ctx.staker.last_update, now);
    ctx.staker.last_update = now;
    Ok(TokenTransfer::Transfer { amount })
}

// --------------------------------------------------------------- reward_view

/// Accounts of `reward_view`: a stake and the program state.
#[derive(Clone, Copy, Debug)]
pub struct RewardView {
    pub staker: Staker,
    pub app_state: AppState,
}

/// The reward a stake would receive if claimed at `now`.
pub fn reward_view_handler(ctx: &RewardView, now: i64) -> (amount: u64)
    requires
        reward_defined(ctx.app_state.reward_per_block, ctx.staker.total_amount, ctx.staker.last_update, now),
    ensures
        amount == reward_for(ctx.app_state.reward_per_block, ctx.staker.total_amount, ctx.staker.last_update, now),
{
    ctx.app_state.reward_at(ctx.staker.total_amount, ctx.staker.last_update, now)
}

// --------------------------------------------------------------------- stake

/// Accounts of `stake`: the signer, the decimals of the staked token's mint,
/// the signer's stake and the program state.
#[derive(Clone, Copy, Debug)]
pub struct Stake {
    pub signer: Key,
    pub paid_decimals: u8,
    pub staker: Staker,
    pub app_state: AppState,
}

/// The token movements of one `stake`: the deposit of the whole amount into
/// the stake vault, and the receipt tokens minted to the user.
#[derive(Clone, Copy, Debug, PartialEq, Eq, Structural)]
pub struct StakeTransfers {
    pub deposit: TokenTransfer,
    pub mint_amount: u64,
}

/// The fuel fee kept out of a stake of `amount`.
pub open spec fn fuel_fee(fuel_percentage: u16, amount: u64) -> int {
    (fuel_percentage * amount) / (REWARD_DENOMINATOR as int)
}

/// What a stake of `amount` counts for once the fuel fee is taken.
pub open spec fn staked_amount(fuel_percentage: u16, amount: u64) -> int {
    amount - fuel_fee(fuel_percentage, amount)
}

/// A stake of `amount` stays within the machine integers.
pub open spec fn stake_fits(ctx: Stake, amount: u64) -> bool {
    let net = staked_amount(ctx.app_state.fuel_percentage, amount);
    &&& ctx.app_state.fuel_percentage * amount <= u64::MAX
    &&& 0 <= net
    &&& ctx.app_state.total_staked + net <= u128::MAX
    &&& ctx.staker.total_amount == 0 ==> ctx.app_state.staker_counts + 1 <= u64::MAX
    &&& ctx.staker.total_amount + net <= u64::MAX
}

/// Whether a stake of `amount` stays within the machine integers.
pub fn stake_in_range(ctx: &Stake, amount: u64) -> (r: bool)
    ensures
        r == stake_fits(*ctx, amount),
{
    proof {
        lemma_u64_product_fits_u128(ctx.app_state.fuel_percentage as u64, amount);
    }
    let weighted: u128 = ctx.app_state.fuel_percentage as u128 * amount as u128;
    if weighted > u64::MAX as u128 {
        return false;
    }
    let fee: u128 = weighted / REWARD_DENOMINATOR as u128;
    if fee > amount as u128 {
        return false;
    }
    let net: u64 = amount - fee as u64;
    if ctx.app_state.total_staked.checked_add(net as u128).is_none() {
        return false;
    }
    if ctx.staker.total_amount == 0 && ctx.app_state.staker_counts == u64::MAX {
        return false;
    }
    ctx.staker.total_amount.checked_add(net).is_some()
}

/// The accounts after a stake of `amount` at `now`.
pub open spec fn after_stake(ctx: Stake, amount: u64, now: i64) -> Stake {
    let net = staked_amount(ctx.app_state.fuel_percentage, amount);
    let first = ctx.staker.total_amount == 0;
    Stake {
        staker: Staker {
            total_amount: (ctx.staker.total_amount + net) as u64,
            user: if first { ctx.signer } else { ctx.staker.user },
            last_update: now,
        },
        app_state: AppState {
            total_staked: (ctx.app_state.total_staked + net) as u128,
            staker_counts: if first { (ctx.app_state.staker_counts + 1) as u64 } else { ctx.app_state.staker_counts },
            ..ctx.app_state
        },
        ..ctx
    }
}

/// Stakes `amount`: the whole amount moves into the vault, the amount less
/// the fuel fee is minted as receipt tokens and added to the stake and to the
/// program's total; a first stake counts a new staker and records its user.
pub fn stake_handler(ctx: &mut Stake, amount: u64, now: i64) -> (r: StakeTransfers)
    requires
        stake_fits(*old(ctx), amount),
    ensures
        r.deposit == transfer_for(old(ctx).app_state.is_token2022, amount, old(ctx).paid_decimals),
        r.mint_amount == staked_amount(old(ctx).app_state.fuel_percentage, amount),
        r.mint_amount == amount - (old(ctx).app_state.fuel_percentage as int * amount) / 10000,
        *final(ctx) == after_stake(*old(ctx), amount, now),
{
    let net_amount: u64 = amount - ctx.app_state.fuel_percentage as u64 * amount / REWARD_DENOMINATOR;
    let deposit = make_transfer(ctx.app_state.is_token2022, amount, ctx.paid_decimals);
    ctx.app_state.total_staked = ctx.app_state.total_staked + net_amount as u128;
    if ctx.staker.total_amount == 0 {
        ctx.app_state.staker_counts = ctx.app_state.staker_counts + 1;
        ctx.staker.user = ctx.signer;
    }
    ctx.staker.total_amount = ctx.staker.total_amount + net_amount;
    ctx.staker.last_update = now;
    StakeTransfers { deposit, mint_amount: net_amount }
}

} // verus!
