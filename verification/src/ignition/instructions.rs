//! Instructions of the launchpad, as transitions of the accounts they read
//! and write.  Each handler first makes the account checks its instruction
//! declares on stored keys, then the program's own checks, in the order the
//! program makes them; on any failure nothing changes.
use vstd::prelude::*;
use crate::key::Key;
use crate::math::{checked_pow10, lemma_u64_product_fits_u128};
use crate::transfer::{TokenTransfer, transfer_for, make_transfer};
use crate::stake::constants::MIN_STAKE_AMOUNT;
use crate::stake::state::Staker;
use crate::ignition::constants::{DENOMINATOR, MAX_TGE_DATE_ADJUSTMENT_ATTEMPTS};
use crate::ignition::error::ErrCode;
use crate::ignition::state::{
    Pool, Buyer, OfferToken, offer_amount_for, offer_amount_defined, claimable_amount, claimable_defined, claimable_in_range,
};

verus! {

// --------------------------------------------------------------- create_pool

/// Accounts of `create_pool`: the creator, the two mints and the freshly
/// allocated pool.
#[derive(Clone, Copy, Debug)]
pub struct CreatePool {
    pub creator: Key,
    pub offer_mint: Key,
    pub purchase_mint: Key,
    pub pool: Pool,
}

/// The first check of `create_pool` that `uints` fails: a fee or proportion
/// (taken as `u16`) above the denominator, or sale times out of order.
pub open spec fn create_pool_check(uints: Seq<u64>) -> Option<ErrCode> {
    if (uints[3] as u16) > DENOMINATOR {
        Some(ErrCode::InvalidTokenFeePercentage)
    } else if (uints[6] as u16) > DENOMINATOR {
        Some(ErrCode::InvalidTokenFeePercentage)
    } else if (uints[7] as u16) > DENOMINATOR {
        Some(ErrCode::InvalidTokenFeePercentage)
    } else if uints[9] > uints[10] {
        Some(ErrCode::InvalidTime)
    } else if uints[10] > uints[11] {
        Some(ErrCode::InvalidTime)
    } else if uints[11] > uints[13] {
        Some(ErrCode::InvalidTime)
    } else {
        None
    }
}

/// The pool that `create_pool` writes.  `uints` holds, in order: the
/// maximum buy for a KYC user and for another user, the maximum buy in the
/// early pool, the token fee, the early and open participant fees, the early
/// and open pool proportions, the total to raise, the early start, the open
/// start (which is also the early end), the open end, the offered token's
/// rate, the token generation date, the share released on that date, the
/// vesting cliff, the vesting frequency and the number of vesting steps.
/// Fields that `create_pool` does not write keep the value of the fresh
/// account.
pub open spec fn created_pool(
    ctx: CreatePool,
    uints: Seq<u64>,
    offer_decimals: u8,
    is_token22: bool,
    private: bool,
    bump: u8,
) -> Pool {
    Pool {
        owner: ctx.creator,
        offer_token: OfferToken { rate: uints[12], mint: ctx.offer_mint, decimals: offer_decimals },
        purchase_token: ctx.purchase_mint,
        total_raise_amount: uints[8],
        total_collect_amount: 0,
        total_sold: 0,
        token_fee_percentage: uints[3] as u16,
        total_fee: 0,
        max_buy_in_early_pool: uints[2],
        early_start: uints[9] as i64,
        early_end: uints[10] as i64,
        collect_in_early_pool: 0,
        sold_in_early_pool: 0,
        early_pool_proportion: uints[6] as u16,
        early_participant_fee: uints[4] as u16,
        max_buy_for_kyc_user: uints[0],
        max_buy_for_not_kyc_user: uints[1],
        open_start: uints[10] as i64,
        open_end: uints[11] as i64,
        open_pool_proportion: uints[7] as u16,
        open_participant_fee: uints[5] as u16,
        tge_date: uints[13] as i64,
        tge_percentage: uints[14] as u16,
        vesting_cliff: uints[15] as i64,
        vesting_frequency: uints[16] as i64,
        number_of_vesting: uints[17] as u16,
        private_raise: private,
        is_token22,
        bump,
        ..ctx.pool
    }
}

/// Sets up a pool from `uints` (see `created_pool`), the offered token's
/// decimals and program, whether the sale is private, and the bump of the
/// pool's authority.  The purchase token's decimals are not stored.
pub fn create_pool_handler(
    ctx: &mut CreatePool,
    uints: [u64; 18],
    offer_decimals: u8,
    purchase_decimals: u8,
    is_token22: bool,
    private: bool,
    bump: u8,
) -> (r: Result<(), ErrCode>)
    ensures
        create_pool_check(uints@) matches Some(e) ==> r == Err::<(), ErrCode>(e) && *final(ctx) == *old(ctx),
        create_pool_check(uints@) is None ==> r == Ok::<(), ErrCode>(()) && *final(ctx) == (CreatePool {
            pool: created_pool(*old(ctx), uints@, offer_decimals, is_token22, private, bump),
            ..*old(ctx)
        }),
{
    if uints[3] as u16 > DENOMINATOR {
        return Err(ErrCode::InvalidTokenFeePercentage);
    }
    // early pool proportion
    if uints[6] as u16 > DENOMINATOR {
        return Err(ErrCode::InvalidTokenFeePercentage);
    }
    // open pool proportion
    if uints[7] as u16 > DENOMINATOR {
        return Err(ErrCode::InvalidTokenFeePercentage);
    }
    if uints[9] > uints[10] {
        return Err(ErrCode::InvalidTime);
    }
    if uints[10] > uints[11] {
        return Err(ErrCode::InvalidTime);
    }
    if uints[11] > uints[13] {
        return Err(ErrCode::InvalidTime);
    }
    let pool = &mut ctx.pool;
    pool.max_buy_for_kyc_user = uints[0];
    pool.max_buy_for_not_kyc_user = uints[1];
    pool.max_buy_in_early_pool = uints[2];
    pool.token_fee_percentage = uints[3] as u16;
    pool.early_participant_fee = uints[4] as u16;
    pool.open_participant_fee = uints[5] as u16;
    pool.early_pool_proportion = uints[6] as u16;
    pool.open_pool_proportion = uints[7] as u16;
    pool.total_raise_amount = uints[8];
    pool.early_start = uints[9] as i64;
    pool.early_end = uints[10] as i64;
    pool.open_start = uints[10] as i64;
    pool.open_end = uints[11] as i64;
    pool.offer_token.rate = uints[12];
    pool.offer_token.decimals = offer_decimals;
    pool.tge_date = uints[13] as i64;
    pool.tge_percentage = uints[14] as u16;
    pool.vesting_cliff = uints[15] as i64;
    pool.vesting_frequency = uints[16] as i64;
    pool.number_of_vesting = uints[17] as u16;
    pool.owner = ctx.creator;
    pool.total_collect_amount = 0;
    pool.total_sold = 0;
    pool.collect_in_early_pool = 0;
    pool.sold_in_early_pool = 0;
    pool.offer_token.mint = ctx.offer_mint;
    pool.purchase_token = ctx.purchase_mint;
    pool.total_fee = 0;
    pool.private_raise = private;
    pool.is_token22 = is_token22;
    pool.bump = bump;
    Ok(())
}


// ------------------------------------------------------ owner-only switches

/// Accounts of `emergency_cancel`: the signer and the pool it owns.
#[derive(Clone, Copy, Debug)]
pub struct EmergencyCancel {
    pub owner: Key,
    pub pool: Pool,
}

/// Accounts of `finalize_pool`: the signer and the pool it owns.
#[derive(Clone, Copy, Debug)]
pub struct FinalizePool {
    pub owner: Key,
    pub pool: Pool,
}

/// Accounts of `toggle_claimable`: the signer and the pool it owns.
#[derive(Clone, Copy, Debug)]
pub struct ToggleClaimable {
    pub owner: Key,
    pub pool: Pool,
}

/// Accounts of `update_tge_date`: the signer and the pool it owns.
#[derive(Clone, Copy, Debug)]
pub struct UpdateTgeDate {
    pub owner: Key,
    pub pool: Pool,
}

/// Whether `signer` is the key stored as the pool's owner.
pub open spec fn is_pool_owner(pool: Pool, signer: Key) -> bool {
    pool.owner@ == signer@
}

/// The accounts after the sale is cancelled.
pub open spec fn cancelled(ctx: EmergencyCancel) -> EmergencyCancel {
    EmergencyCancel { pool: Pool { emergency_cancelled: true, ..ctx.pool }, ..ctx }
}

/// The accounts after the sale is finalized.
pub open spec fn finalized(ctx: FinalizePool) -> FinalizePool {
    FinalizePool { pool: Pool { claimable: true, ..ctx.pool }, ..ctx }
}

/// The accounts after claiming is switched.
pub open spec fn toggled(ctx: ToggleClaimable) -> ToggleClaimable {
    ToggleClaimable { pool: Pool { claimable: !ctx.pool.claimable, ..ctx.pool }, ..ctx }
}

/// The owner cancels the sale, which opens refunds.
pub fn emergency_cancel_handler(ctx: &mut EmergencyCancel) -> (r: Result<(), ErrCode>)
    ensures
        !is_pool_owner(old(ctx).pool, old(ctx).owner) ==> r == Err::<(), ErrCode>(ErrCode::ConstraintHasOne)
            && *final(ctx) == *old(ctx),
        is_pool_owner(old(ctx).pool, old(ctx).owner) ==> r == Ok::<(), ErrCode>(())
            && *final(ctx) == cancelled(*old(ctx)),
        final(ctx).pool == pool_after(old(ctx).pool, PoolInstruction::EmergencyCancel { owner: old(ctx).owner }),
{
    if !ctx.pool.owner.same_as(&ctx.owner) {
        return Err(ErrCode::ConstraintHasOne);
    }
    ctx.pool.emergency_cancelled = true;
    Ok(())
}

/// The owner ends the sale and lets buyers claim.
pub fn finalize_pool_handler(ctx: &mut FinalizePool) -> (r: Result<(), ErrCode>)
    ensures
        !is_pool_owner(old(ctx).pool, old(ctx).owner) ==> r == Err::<(), ErrCode>(ErrCode::ConstraintHasOne)
            && *final(ctx) == *old(ctx),
        is_pool_owner(old(ctx).pool, old(ctx).owner) ==> r == Ok::<(), ErrCode>(())
            && *final(ctx) == finalized(*old(ctx)),
        final(ctx).pool == pool_after(old(ctx).pool, PoolInstruction::FinalizePool { owner: old(ctx).owner }),
{
    if !ctx.pool.owner.same_as(&ctx.owner) {
        return Err(ErrCode::ConstraintHasOne);
    }
    ctx.pool.claimable = true;
    Ok(())
}

/// The owner switches claiming on or off.
pub fn toggle_claimable_handler(ctx: &mut ToggleClaimable) -> (r: Result<(), ErrCode>)
    ensures
        !is_pool_owner(old(ctx).pool, old(ctx).owner) ==> r == Err::<(), ErrCode>(ErrCode::ConstraintHasOne)
            && *final(ctx) == *old(ctx),
        is_pool_owner(old(ctx).pool, old(ctx).owner) ==> r == Ok::<(), ErrCode>(())
            && *final(ctx) == toggled(*old(ctx)),
        final(ctx).pool == pool_after(old(ctx).pool, PoolInstruction::ToggleClaimable { owner: old(ctx).owner }),
{
    if !ctx.pool.owner.same_as(&ctx.owner) {
        return Err(ErrCode::ConstraintHasOne);
    }
    ctx.pool.claimable = !ctx.pool.claimable;
    Ok(())
}

/// The first check of `update_tge_date` that fails.
pub open spec fn update_tge_date_check(ctx: UpdateTgeDate, tge_date: i64) -> Option<ErrCode> {
    if !is_pool_owner(ctx.pool, ctx.owner) {
        Some(ErrCode::ConstraintHasOne)
    } else if ctx.pool.open_end > tge_date {
        Some(ErrCode::InvalidTime)
    } else if ctx.pool.udpate_tge_attempts >= MAX_TGE_DATE_ADJUSTMENT_ATTEMPTS {
        Some(ErrCode::NotAllowedToAdjustTGEDateExceedsAttempts)
    } else {
        None
    }
}

/// The accounts after the token generation date moves to `tge_date`.
pub open spec fn tge_date_moved(ctx: UpdateTgeDate, tge_date: i64) -> UpdateTgeDate {
    UpdateTgeDate {
        pool: Pool { tge_date, udpate_tge_attempts: (ctx.pool.udpate_tge_attempts + 1) as u16, ..ctx.pool },
        ..ctx
    }
}

/// The owner moves the token generation date to `tge_date`, which may not
/// come before the end of the open sale; at most
/// `MAX_TGE_DATE_ADJUSTMENT_ATTEMPTS` times.
pub fn update_tge_date_handler(ctx: &mut UpdateTgeDate, tge_date: i64) -> (r: Result<(), ErrCode>)
    ensures
        update_tge_date_check(*old(ctx), tge_date) matches Some(e) ==> r == Err::<(), ErrCode>(e)
            && *final(ctx) == *old(ctx),
        update_tge_date_check(*old(ctx), tge_date) is None ==> r == Ok::<(), ErrCode>(())
            && *final(ctx) == tge_date_moved(*old(ctx), tge_date),
        final(ctx).pool == pool_after(
            old(ctx).pool,
            PoolInstruction::UpdateTgeDate { owner: old(ctx).owner, tge_date },
        ),
{
    if !ctx.pool.owner.same_as(&ctx.owner) {
        return Err(ErrCode::ConstraintHasOne);
    }
    if ctx.pool.open_end > tge_date {
        return Err(ErrCode::InvalidTime);
    }
    if ctx.pool.udpate_tge_attempts >= MAX_TGE_DATE_ADJUSTMENT_ATTEMPTS {
        return Err(ErrCode::NotAllowedToAdjustTGEDateExceedsAttempts);
    }
    ctx.pool.tge_date = tge_date;
    ctx.pool.udpate_tge_attempts = ctx.pool.udpate_tge_attempts + 1;
    Ok(())
}

// ---------------------------------------------------------------- fund_offer

/// Accounts of `fund_offer`: the signer, the offered token's decimals,
/// whether the token program in use is the 2022 one, and the pool.
#[derive(Clone, Copy, Debug)]
pub struct FundOffer {
    pub owner: Key,
    pub offer_mint_decimals: u8,
    pub token_program_is_token_2022: bool,
    pub pool: Pool,
}

/// Whether `fund_offer` of `amount` stays within `u64`.
pub fn fund_offer_in_range(ctx: &FundOffer, amount: u64) -> (r: bool)
    ensures
        r == (is_pool_owner(ctx.pool, ctx.owner) ==> ctx.pool.total_funded_amount + amount <= u64::MAX),
{
    !ctx.pool.owner.same_as(&ctx.owner) || ctx.pool.total_funded_amount.checked_add(amount).is_some()
}

/// The accounts after the owner funds the pool with `amount`.
pub open spec fn funded_with(ctx: FundOffer, amount: u64) -> FundOffer {
    FundOffer {
        pool: Pool { total_funded_amount: (ctx.pool.total_funded_amount + amount) as u64, funded: true, ..ctx.pool },
        ..ctx
    }
}

/// The owner deposits `amount` of the offered token into the pool's vault;
/// the pool counts it and is marked funded.
pub fn fund_offer_handler(ctx: &mut FundOffer, amount: u64) -> (r: Result<TokenTransfer, ErrCode>)
    requires
        is_pool_owner(old(ctx).pool, old(ctx).owner) ==> old(ctx).pool.total_funded_amount + amount <= u64::MAX,
    ensures
        !is_pool_owner(old(ctx).pool, old(ctx).owner) ==> r == Err::<TokenTransfer, ErrCode>(
            ErrCode::ConstraintHasOne,
        ) && *final(ctx) == *old(ctx),
        is_pool_owner(old(ctx).pool, old(ctx).owner) ==> r == Ok::<TokenTransfer, ErrCode>(
            transfer_for(old(ctx).token_program_is_token_2022, amount, old(ctx).offer_mint_decimals),
        ) && *final(ctx) == funded_with(*old(ctx), amount),
        final(ctx).pool == pool_after(
            old(ctx).pool,
            PoolInstruction::FundOffer {
                owner: old(ctx).owner,
                offer_mint_decimals: old(ctx).offer_mint_decimals,
                token_program_is_token_2022: old(ctx).token_program_is_token_2022,
                amount,
            },
        ),
{
    if !ctx.pool.owner.same_as(&ctx.owner) {
        return Err(ErrCode::ConstraintHasOne);
    }
    let deposit = make_transfer(ctx.token_program_is_token_2022, amount, ctx.offer_mint_decimals);
    ctx.pool.total_funded_amount = ctx.pool.total_funded_amount + amount;
    ctx.pool.funded = true;
    Ok(deposit)
}

// ------------------------------------------------------------ withdraw_offer

/// Accounts of `withdraw_offer`: the signer, the offered token's decimals,
/// whether the token program in use is the 2022 one, and the pool.
#[derive(Clone, Copy, Debug)]
pub struct WithdrawOffer {
    pub owner: Key,
    pub offer_mint_decimals: u8,
    pub token_program_is_token_2022: bool,
    pub pool: Pool,
}

/// The first check of `withdraw_offer` that fails at `now`.
pub open spec fn withdraw_offer_check(ctx: WithdrawOffer, now: i64) -> Option<ErrCode> {
    if !is_pool_owner(ctx.pool, ctx.owner) {
        Some(ErrCode::ConstraintHasOne)
    } else if now < ctx.pool.tge_date {
        Some(ErrCode::InvalidTime)
    } else if !ctx.pool.emergency_cancelled {
        Some(ErrCode::NotWithdrawable)
    } else {
        None
    }
}

/// When the sale failed (it was cancelled), from the token generation date
/// on, the owner takes back every offered token it funded the pool with.
pub fn withdraw_offer_handler(ctx: &WithdrawOffer, now: i64) -> (r: Result<TokenTransfer, ErrCode>)
    ensures
        withdraw_offer_check(*ctx, now) matches Some(e) ==> r == Err::<TokenTransfer, ErrCode>(e),
        withdraw_offer_check(*ctx, now) is None ==> r == Ok::<TokenTransfer, ErrCode>(
            transfer_for(ctx.token_program_is_token_2022, ctx.pool.total_funded_amount, ctx.offer_mint_decimals),
        ),
{
    if !ctx.pool.owner.same_as(&ctx.owner) {
        return Err(ErrCode::ConstraintHasOne);
    }
    if now < ctx.pool.tge_date {
        return Err(ErrCode::InvalidTime);
    }
    if !ctx.pool.emergency_cancelled {
        return Err(ErrCode::NotWithdrawable);
    }
    Ok(make_transfer(ctx.token_program_is_token_2022, ctx.pool.total_funded_amount, ctx.offer_mint_decimals))
}

// --------------------------------------------------------- withdraw_purchase

/// Accounts of `withdraw_purchase`: the pool.
#[derive(Clone, Copy, Debug)]
pub struct WithdrawPurchase {
    pub pool: Pool,
}

/// Where the collected purchase tokens go: the fees to the staking
/// program's reward pot, the rest to the pool's owner.
#[derive(Clone, Copy, Debug, PartialEq, Eq, Structural)]
pub struct PurchaseWithdrawal {
    pub reward_fund: u64,
    pub owner_amount: u64,
}

/// The launchpad's cut of what a pool collected.
pub open spec fn project_fee(pool: Pool) -> int {
    (pool.total_collect_amount * pool.token_fee_percentage) / (DENOMINATOR as int)
}

/// Splitting a pool's collection stays within `u64`.
pub open spec fn withdraw_purchase_fits(pool: Pool) -> bool {
    &&& pool.total_collect_amount * pool.token_fee_percentage <= u64::MAX
    &&& project_fee(pool) + pool.total_fee <= u64::MAX
    &&& project_fee(pool) <= pool.total_collect_amount
}

/// Whether splitting a pool's collection stays within `u64`.
pub fn withdraw_purchase_in_range(pool: &Pool) -> (r: bool)
    ensures
        r == withdraw_purchase_fits(*pool),
{
    proof {
        lemma_u64_product_fits_u128(pool.total_collect_amount, pool.token_fee_percentage as u64);
    }
    let weighted: u128 = pool.total_collect_amount as u128 * pool.token_fee_percentage as u128;
    if weighted > u64::MAX as u128 {
        return false;
    }
    let project_fee: u128 = weighted / DENOMINATOR as u128;
    project_fee + pool.total_fee as u128 <= u64::MAX as u128 && project_fee <= pool.total_collect_amount as u128
}

/// Splits the collected purchase tokens: the launchpad's cut plus the
/// buyers' fees fund the staking rewards, the rest goes to the pool's owner.
pub fn withdraw_purchase_handler(ctx: &WithdrawPurchase) -> (r: PurchaseWithdrawal)
    requires
        withdraw_purchase_fits(ctx.pool),
    ensures
        r.reward_fund == project_fee(ctx.pool) + ctx.pool.total_fee,
        r.owner_amount == ctx.pool.total_collect_amount - project_fee(ctx.pool),
{
    let project_fee: u64 = ctx.pool.total_collect_amount * ctx.pool.token_fee_percentage as u64
        / DENOMINATOR as u64;
    let total_fee: u64 = project_fee + ctx.pool.total_fee;
    let amount: u64 = ctx.pool.total_collect_amount - project_fee;
    PurchaseWithdrawal { reward_fund: total_fee, owner_amount: amount }
}


// --------------------------------------------------------- buy_in_early_pool

/// Accounts of `buy_in_early_pool`: the signer, the purchase mint and its
/// decimals, the offered token's decimals, the signer's stake in the staking
/// program, its buyer account and the pool.
#[derive(Clone, Copy, Debug)]
pub struct BuyInEarlyPool {
    pub signer: Key,
    pub purchase_mint: Key,
    pub purchase_mint_decimals: u8,
    pub offer_mint_decimals: u8,
    pub staker: Staker,
    pub buyer: Buyer,
    pub pool: Pool,
}

/// The early participant fee on a purchase of `amount`: the fee rate is
/// applied to whole ten-thousandths of the amount.
pub open spec fn early_fee(pool: Pool, amount: u64) -> int {
    (amount as int) / (DENOMINATOR as int) * pool.early_participant_fee
}

/// The part of a purchase of `amount` that buys offered tokens.
pub open spec fn early_net(pool: Pool, amount: u64) -> int {
    amount - early_fee(pool, amount)
}

/// The account checks of `buy_in_early_pool`: the stake belongs to the
/// signer and the pool sells for the purchase mint passed in.
pub open spec fn early_accounts_match(ctx: BuyInEarlyPool) -> bool {
    ctx.staker.user@ == ctx.signer@ && ctx.pool.purchase_token@ == ctx.purchase_mint@
}

/// The first check of `buy_in_early_pool` that fails for `amount` at `now`.
pub open spec fn buy_in_early_pool_check(ctx: BuyInEarlyPool, amount: u64, now: i64) -> Option<ErrCode> {
    if !early_accounts_match(ctx) {
        Some(ErrCode::ConstraintRaw)
    } else if now < ctx.pool.early_start || now > ctx.pool.early_end {
        Some(ErrCode::InvalidTime)
    } else if !ctx.pool.funded {
        Some(ErrCode::NotFunded)
    } else if ctx.buyer.purchase_in_early_pool + early_net(ctx.pool, amount) > ctx.pool.max_buy_in_early_pool {
        Some(ErrCode::ExceedMaxPurchaseAmountForEarlyAccess)
    } else if ctx.staker.total_amount < MIN_STAKE_AMOUNT {
        Some(ErrCode::NotEnoughStaker)
    } else {
        None
    }
}

/// Offered tokens bought by the net part of a purchase of `amount`.
pub open spec fn early_offer(ctx: BuyInEarlyPool, amount: u64) -> int {
    offer_amount_for(
        ctx.pool.offer_token.rate,
        early_net(ctx.pool, amount) as u64,
        ctx.purchase_mint_decimals,
        ctx.offer_mint_decimals,
    )
}

/// The arithmetic of an early purchase of `amount` stays within `u64` on
/// every path the program takes.
pub open spec fn buy_in_early_pool_fits(ctx: BuyInEarlyPool, amount: u64, now: i64) -> bool {
    let fee = early_fee(ctx.pool, amount);
    let net = early_net(ctx.pool, amount);
    let offer = early_offer(ctx, amount);
    &&& (early_accounts_match(ctx) && ctx.pool.early_start <= now <= ctx.pool.early_end && ctx.pool.funded)
        ==> {
        &&& fee <= u64::MAX
        &&& fee <= amount
    }
    &&& buy_in_early_pool_check(ctx, amount, now) is None ==> {
        &&& ctx.buyer.principal + net <= u64::MAX
        &&& ctx.buyer.purchase_in_early_pool + net <= u64::MAX
        &&& ctx.buyer.fee + fee <= u64::MAX
        &&& offer_amount_defined(
            ctx.pool.offer_token.rate,
            net as u64,
            ctx.purchase_mint_decimals,
            ctx.offer_mint_decimals,
        )
        &&& ctx.buyer.total_amount + offer <= u64::MAX
        &&& ctx.pool.total_collect_amount + net <= u64::MAX
        &&& ctx.pool.total_sold + offer <= u64::MAX
        &&& ctx.pool.collect_in_early_pool + net <= u64::MAX
        &&& ctx.pool.sold_in_early_pool + offer <= u64::MAX
        &&& ctx.pool.total_fee + fee <= u64::MAX
    }
}

/// Whether an early purchase of `amount` at `now` stays within `u64` on
/// every path the program takes.
pub fn buy_in_early_pool_in_range(ctx: &BuyInEarlyPool, amount: u64, now: i64) -> (r: bool)
    ensures
        r == buy_in_early_pool_fits(*ctx, amount, now),
{
    let accounts_match = ctx.staker.user.same_as(&ctx.signer) && ctx.pool.purchase_token.same_as(&ctx.purchase_mint);
    if !(accounts_match && ctx.pool.early_start <= now && now <= ctx.pool.early_end && ctx.pool.funded) {
        return true;
    }
    let units: u64 = amount / DENOMINATOR as u64;
    proof {
        lemma_u64_product_fits_u128(units, ctx.pool.early_participant_fee as u64);
    }
    let fee_wide: u128 = units as u128 * ctx.pool.early_participant_fee as u128;
    if fee_wide > u64::MAX as u128 || fee_wide > amount as u128 {
        return false;
    }
    let fee: u64 = fee_wide as u64;
    let net: u64 = amount - fee;
    if ctx.buyer.purchase_in_early_pool as u128 + net as u128 > ctx.pool.max_buy_in_early_pool as u128
        || ctx.staker.total_amount < MIN_STAKE_AMOUNT {
        return true;
    }
    if ctx.buyer.principal.checked_add(net).is_none() || ctx.buyer.purchase_in_early_pool.checked_add(net).is_none()
        || ctx.buyer.fee.checked_add(fee).is_none() || ctx.pool.total_collect_amount.checked_add(net).is_none()
        || ctx.pool.collect_in_early_pool.checked_add(net).is_none() || ctx.pool.total_fee.checked_add(fee).is_none() {
        return false;
    }
    proof {
        lemma_u64_product_fits_u128(net, ctx.pool.offer_token.rate);
    }
    let paid: u128 = net as u128 * ctx.pool.offer_token.rate as u128;
    if paid > u64::MAX as u128 {
        return false;
    }
    let purchase_scale = match checked_pow10(ctx.purchase_mint_decimals as u32) {
        Some(v) => v,
        None => {
            return false;
        },
    };
    let offer_scale = match checked_pow10(ctx.offer_mint_decimals as u32) {
        Some(v) => v,
        None => {
            return false;
        },
    };
    let whole: u64 = (paid as u64) / purchase_scale;
    proof {
        lemma_u64_product_fits_u128(whole, offer_scale);
    }
    let offer: u128 = whole as u128 * offer_scale as u128;
    if offer > u64::MAX as u128 {
        return false;
    }
    let offer: u64 = offer as u64;
    ctx.buyer.total_amount.checked_add(offer).is_some() && ctx.pool.total_sold.checked_add(offer).is_some()
        && ctx.pool.sold_in_early_pool.checked_add(offer).is_some()
}

/// The buyer and the pool after an early purchase of `amount`.
pub open spec fn after_early_purchase(ctx: BuyInEarlyPool, amount: u64) -> BuyInEarlyPool {
    let fee = early_fee(ctx.pool, amount);
    let net = early_net(ctx.pool, amount);
    let offer = early_offer(ctx, amount);
    BuyInEarlyPool {
        buyer: Buyer {
            principal: (ctx.buyer.principal + net) as u64,
            purchase_in_early_pool: (ctx.buyer.purchase_in_early_pool + net) as u64,
            fee: (ctx.buyer.fee + fee) as u64,
            total_amount: (ctx.buyer.total_amount + offer) as u64,
            ..ctx.buyer
        },
        pool: Pool {
            total_collect_amount: (ctx.pool.total_collect_amount + net) as u64,
            total_sold: (ctx.pool.total_sold + offer) as u64,
            collect_in_early_pool: (ctx.pool.collect_in_early_pool + net) as u64,
            sold_in_early_pool: (ctx.pool.sold_in_early_pool + offer) as u64,
            total_fee: (ctx.pool.total_fee + fee) as u64,
            ..ctx.pool
        },
        ..ctx
    }
}

/// A staker buys into the early pool with `amount` of the purchase token
/// during the early window of a funded pool.  The early participant fee is
/// kept apart; the rest is the buyer's principal and buys offered tokens at
/// the pool's rate.  The limit is counted in purchase-token units: the
/// buyer's earlier net purchases in the early pool plus the new net purchase
/// may not pass the early pool's maximum.  The buyer must hold at least
/// `MIN_STAKE_AMOUNT` in the staking program.  The whole `amount` moves
/// from the buyer to the pool's purchase vault.
pub fn buy_in_early_pool_handler(ctx: &mut BuyInEarlyPool, amount: u64, now: i64) -> (r: Result<
    TokenTransfer,
    ErrCode,
>)
    requires
        buy_in_early_pool_fits(*old(ctx), amount, now),
    ensures
        buy_in_early_pool_check(*old(ctx), amount, now) matches Some(e) ==> r == Err::<TokenTransfer, ErrCode>(e)
            && *final(ctx) == *old(ctx),
        buy_in_early_pool_check(*old(ctx), amount, now) is None ==> r == Ok::<TokenTransfer, ErrCode>(
            TokenTransfer::Transfer { amount },
        ) && *final(ctx) == after_early_purchase(*old(ctx), amount),
        final(ctx).pool == pool_after(
            old(ctx).pool,
            PoolInstruction::BuyInEarlyPool {
                signer: old(ctx).signer,
                purchase_mint: old(ctx).purchase_mint,
                purchase_mint_decimals: old(ctx).purchase_mint_decimals,
                offer_mint_decimals: old(ctx).offer_mint_decimals,
                staker: old(ctx).staker,
                buyer: old(ctx).buyer,
                amount,
                now,
            },
        ),
{
    if !ctx.staker.user.same_as(&ctx.signer) {
        return Err(ErrCode::ConstraintRaw);
    }
    if !ctx.pool.purchase_token.same_as(&ctx.purchase_mint) {
        return Err(ErrCode::ConstraintRaw);
    }
    if now < ctx.pool.early_start || now > ctx.pool.early_end {
        return Err(ErrCode::InvalidTime);
    }
    if !ctx.pool.funded {
        return Err(ErrCode::NotFunded);
    }
    let fee_amount: u64 = amount / DENOMINATOR as u64 * ctx.pool.early_participant_fee as u64;
    let early_total: u128 = ctx.buyer.purchase_in_early_pool as u128 + (amount - fee_amount) as u128;
    if early_total > ctx.pool.max_buy_in_early_pool as u128 {
        return Err(ErrCode::ExceedMaxPurchaseAmountForEarlyAccess);
    }
    if ctx.staker.total_amount < MIN_STAKE_AMOUNT {
        return Err(ErrCode::NotEnoughStaker);
    }
    let net_amount: u64 = amount - fee_amount;
    ctx.buyer.principal = ctx.buyer.principal + net_amount;
    ctx.buyer.purchase_in_early_pool = ctx.buyer.purchase_in_early_pool + net_amount;
    ctx.buyer.fee = ctx.buyer.fee + fee_amount;
    let offer_amount: u64 = ctx.pool.calculate_offer_amount(
        net_amount,
        ctx.purchase_mint_decimals,
        ctx.offer_mint_decimals,
    );
    ctx.buyer.total_amount = ctx.buyer.total_amount + offer_amount;
    ctx.pool.total_collect_amount = ctx.pool.total_collect_amount + net_amount;
    ctx.pool.total_sold = ctx.pool.total_sold + offer_amount;
    ctx.pool.collect_in_early_pool = ctx.pool.collect_in_early_pool + net_amount;
    ctx.pool.sold_in_early_pool = ctx.pool.sold_in_early_pool + offer_amount;
    ctx.pool.total_fee = ctx.pool.total_fee + fee_amount;
    Ok(TokenTransfer::Transfer { amount })
}

// --------------------------------------------------------------- claim_offer

/// Accounts of `claim_offer`: the pool and the claiming buyer.
#[derive(Clone, Copy, Debug)]
pub struct ClaimOffer {
    pub pool: Pool,
    pub buyer: Buyer,
}

/// The first check of `claim_offer` that fails at `now`.
pub open spec fn claim_offer_check(ctx: ClaimOffer, now: i64) -> Option<ErrCode> {
    if !ctx.pool.claimable {
        Some(ErrCode::NotClaimable)
    } else if ctx.pool.emergency_cancelled {
        Some(ErrCode::NotClaimable)
    } else if now < ctx.pool.tge_date {
        Some(ErrCode::NotClaimable)
    } else {
        None
    }
}

/// Whether the claim in `ctx` at `now` stays within the machine integers.
pub fn claim_offer_in_range(ctx: &ClaimOffer, now: i64) -> (r: bool)
    ensures
        r == (claim_offer_check(*ctx, now) is None ==> claimable_defined(
            ctx.pool,
            ctx.buyer.total_amount,
            ctx.buyer.claimed_amount,
            now,
        )),
{
    !ctx.pool.claimable || ctx.pool.emergency_cancelled || now < ctx.pool.tge_date || claimable_in_range(
        &ctx.pool,
        ctx.buyer.total_amount,
        ctx.buyer.claimed_amount,
        now,
    )
}

/// Once a sale that succeeded (it was not cancelled) is claimable and the
/// token generation date has come, pays the buyer what is unlocked and not
/// yet claimed, with the token program the pool was created for.  Neither
/// the buyer nor the pool is written.
pub fn claim_offer_handler(ctx: &ClaimOffer, now: i64) -> (r: Result<TokenTransfer, ErrCode>)
    requires
        claim_offer_check(*ctx, now) is None ==> claimable_defined(
            ctx.pool,
            ctx.buyer.total_amount,
            ctx.buyer.claimed_amount,
            now,
        ),
    ensures
        claim_offer_check(*ctx, now) matches Some(e) ==> r == Err::<TokenTransfer, ErrCode>(e),
        claim_offer_check(*ctx, now) is None ==> r == Ok::<TokenTransfer, ErrCode>(
            transfer_for(
                ctx.pool.is_token22,
                claimable_amount(ctx.pool, ctx.buyer.total_amount, ctx.buyer.claimed_amount, now) as u64,
                ctx.pool.offer_token.decimals,
            ),
        ),
{
    if !ctx.pool.claimable {
        return Err(ErrCode::NotClaimable);
    }
    if ctx.pool.emergency_cancelled {
        return Err(ErrCode::NotClaimable);
    }
    if now < ctx.pool.tge_date {
        return Err(ErrCode::NotClaimable);
    }
    let amount: u64 = ctx.pool.claimable_amount_at(ctx.buyer.total_amount, ctx.buyer.claimed_amount, now);
    Ok(make_transfer(ctx.pool.is_token22, amount, ctx.pool.offer_token.decimals))
}

// ----------------------------------------------------------- refund_purchase

/// Accounts of `refund_purchase`: the purchase mint, the claiming buyer and
/// the pool.
#[derive(Clone, Copy, Debug)]
pub struct RefundPurchase {
    pub purchase_mint: Key,
    pub buyer: Buyer,
    pub pool: Pool,
}

/// The first check of `refund_purchase` that fails at `now`.
pub open spec fn refund_purchase_check(ctx: RefundPurchase, now: i64) -> Option<ErrCode> {
    if ctx.pool.purchase_token@ != ctx.purchase_mint@ {
        Some(ErrCode::ConstraintRaw)
    } else if !ctx.pool.emergency_cancelled {
        Some(ErrCode::NotRefundable)
    } else if now < ctx.pool.tge_date {
        Some(ErrCode::NotRefundable)
    } else if ctx.pool.claimable {
        Some(ErrCode::NotRefundable)
    } else if ctx.buyer.claimed_amount > 0 {
        Some(ErrCode::NotRefundable)
    } else if ctx.buyer.refunded {
        Some(ErrCode::NotRefundable)
    } else {
        None
    }
}

/// The accounts after the buyer is refunded.
pub open spec fn refunded(ctx: RefundPurchase) -> RefundPurchase {
    RefundPurchase { buyer: Buyer { refunded: true, ..ctx.buyer }, ..ctx }
}

/// Whether the refund of the buyer in `ctx` at `now` stays within `u64`.
pub fn refund_purchase_in_range(ctx: &RefundPurchase, now: i64) -> (r: bool)
    ensures
        r == (refund_purchase_check(*ctx, now) is None ==> ctx.buyer.principal + ctx.buyer.fee <= u64::MAX),
{
    let refused = !ctx.pool.purchase_token.same_as(&ctx.purchase_mint) || !ctx.pool.emergency_cancelled
        || now < ctx.pool.tge_date || ctx.pool.claimable || ctx.buyer.claimed_amount > 0 || ctx.buyer.refunded;
    refused || ctx.buyer.principal.checked_add(ctx.buyer.fee).is_some()
}

/// After a cancelled sale reaches its token generation date, while the pool
/// is not claimable, a buyer who has claimed nothing gets back its principal
/// and fees, once.
pub fn refund_purchase_handler(ctx: &mut RefundPurchase, now: i64) -> (r: Result<TokenTransfer, ErrCode>)
    requires
        refund_purchase_check(*old(ctx), now) is None ==> old(ctx).buyer.principal + old(ctx).buyer.fee
            <= u64::MAX,
    ensures
        refund_purchase_check(*old(ctx), now) matches Some(e) ==> r == Err::<TokenTransfer, ErrCode>(e)
            && *final(ctx) == *old(ctx),
        refund_purchase_check(*old(ctx), now) is None ==> r == Ok::<TokenTransfer, ErrCode>(
            TokenTransfer::Transfer { amount: (old(ctx).buyer.principal + old(ctx).buyer.fee) as u64 },
        ) && *final(ctx) == refunded(*old(ctx)),
        final(ctx).pool == pool_after(
            old(ctx).pool,
            PoolInstruction::RefundPurchase { purchase_mint: old(ctx).purchase_mint, buyer: old(ctx).buyer, now },
        ),
{
    if !ctx.pool.purchase_token.same_as(&ctx.purchase_mint) {
        return Err(ErrCode::ConstraintRaw);
    }
    if !ctx.pool.emergency_cancelled {
        return Err(ErrCode::NotRefundable);
    }
    if now < ctx.pool.tge_date {
        return Err(ErrCode::NotRefundable);
    }
    if ctx.pool.claimable {
        return Err(ErrCode::NotRefundable);
    }
    if ctx.buyer.claimed_amount > 0 {
        return Err(ErrCode::NotRefundable);
    }
    if ctx.buyer.refunded {
        return Err(ErrCode::NotRefundable);
    }
    let amount: u64 = ctx.buyer.principal + ctx.buyer.fee;
    ctx.buyer.refunded = true;
    Ok(TokenTransfer::Transfer { amount })
}

// ------------------------------------------------ sequences of instructions

/// One launchpad instruction on an existing pool, with the other accounts and
/// the arguments it reads (and, for those that read the clock, the time).
pub enum PoolInstruction {
    FundOffer { owner: Key, offer_mint_decimals: u8, token_program_is_token_2022: bool, amount: u64 },
    BuyInEarlyPool {
        signer: Key,
        purchase_mint: Key,
        purchase_mint_decimals: u8,
        offer_mint_decimals: u8,
        staker: Staker,
        buyer: Buyer,
        amount: u64,
        now: i64,
    },
    ClaimOffer { buyer: Buyer, now: i64 },
    EmergencyCancel { owner: Key },
    FinalizePool { owner: Key },
    ToggleClaimable { owner: Key },
    UpdateTgeDate { owner: Key, tge_date: i64 },
    RefundPurchase { purchase_mint: Key, buyer: Buyer, now: i64 },
    WithdrawOffer { owner: Key, now: i64 },
    WithdrawPurchase,
}

/// The pool after one instruction: each handler that writes the pool
/// ensures that its new pool is this one.  An
/// instruction that fails, or whose arithmetic would overflow (which aborts
/// the whole transaction), leaves the pool as it was; claims, refunds and
/// withdrawals write no pool field.
pub open spec fn pool_after(pool: Pool, ix: PoolInstruction) -> Pool {
    match ix {
        PoolInstruction::FundOffer { owner, offer_mint_decimals, token_program_is_token_2022, amount } => {
            let ctx = FundOffer { owner, offer_mint_decimals, token_program_is_token_2022, pool };
            if is_pool_owner(pool, owner) && pool.total_funded_amount + amount <= u64::MAX {
                funded_with(ctx, amount).pool
            } else {
                pool
            }
        },
        PoolInstruction::BuyInEarlyPool {
            signer,
            purchase_mint,
            purchase_mint_decimals,
            offer_mint_decimals,
            staker,
            buyer,
            amount,
            now,
        } => {
            let ctx = BuyInEarlyPool {
                signer,
                purchase_mint,
                purchase_mint_decimals,
                offer_mint_decimals,
                staker,
                buyer,
                pool,
            };
            if buy_in_early_pool_fits(ctx, amount, now) && buy_in_early_pool_check(ctx, amount, now) is None {
                after_early_purchase(ctx, amount).pool
            } else {
                pool
            }
        },
        PoolInstruction::EmergencyCancel { owner } => {
            if is_pool_owner(pool, owner) {
                cancelled(EmergencyCancel { owner, pool }).pool
            } else {
                pool
            }
        },
        PoolInstruction::FinalizePool { owner } => {
            if is_pool_owner(pool, owner) {
                finalized(FinalizePool { owner, pool }).pool
            } else {
                pool
            }
        },
        PoolInstruction::ToggleClaimable { owner } => {
            if is_pool_owner(pool, owner) {
                toggled(ToggleClaimable { owner, pool }).pool
            } else {
                pool
            }
        },
        PoolInstruction::UpdateTgeDate { owner, tge_date } => {
            let ctx = UpdateTgeDate { owner, pool };
            if update_tge_date_check(ctx, tge_date) is None {
                tge_date_moved(ctx, tge_date).pool
            } else {
                pool
            }
        },
        _ => pool,
    }
}

/// The pool after a sequence of instructions, in order.
pub open spec fn pool_after_all(pool: Pool, ixs: Seq<PoolInstruction>) -> Pool
    decreases ixs.len(),
{
    if ixs.len() == 0 {
        pool
    } else {
        pool_after_all(pool_after(pool, ixs[0]), ixs.drop_first())
    }
}

} // verus!
