use launchpad::ignition::state::claimable_in_range;
use launchpad::ignition::instructions::{
    buy_in_early_pool_in_range, claim_offer_in_range, fund_offer_in_range, refund_purchase_in_range,
    withdraw_purchase_in_range,
};
use launchpad::ignition::constants::{DENOMINATOR, MAX_TGE_DATE_ADJUSTMENT_ATTEMPTS, STAKE_LIMIT};
use launchpad::ignition::error::ErrCode;
use launchpad::ignition::instructions::{
    buy_in_early_pool_handler, claim_offer_handler, create_pool_handler, emergency_cancel_handler,
    finalize_pool_handler, fund_offer_handler, refund_purchase_handler, toggle_claimable_handler,
    update_tge_date_handler, withdraw_offer_handler, withdraw_purchase_handler, BuyInEarlyPool, ClaimOffer,
    CreatePool, EmergencyCancel, FinalizePool, FundOffer, PurchaseWithdrawal, RefundPurchase, ToggleClaimable,
    UpdateTgeDate, WithdrawOffer, WithdrawPurchase,
};
use launchpad::ignition::state::{Buyer, OfferToken, Pool};
use launchpad::key::Key;
use launchpad::stake::state::Staker;
use launchpad::transfer::TokenTransfer;

fn key(b: u8) -> Key {
    Key::new([b; 32])
}

fn zero_pool() -> Pool {
    Pool {
        owner: key(0),
        offer_token: OfferToken { rate: 0, mint: key(0), decimals: 0 },
        purchase_token: key(0),
        total_raise_amount: 0,
        total_collect_amount: 0,
        total_sold: 0,
        token_fee_percentage: 0,
        total_fee: 0,
        max_buy_in_early_pool: 0,
        early_start: 0,
        early_end: 0,
        collect_in_early_pool: 0,
        sold_in_early_pool: 0,
        early_pool_proportion: 0,
        early_participant_fee: 0,
        max_buy_for_kyc_user: 0,
        max_buy_for_not_kyc_user: 0,
        open_start: 0,
        open_end: 0,
        open_pool_proportion: 0,
        open_participant_fee: 0,
        tge_date: 0,
        tge_percentage: 0,
        vesting_cliff: 0,
        vesting_frequency: 0,
        number_of_vesting: 0,
        total_funded_amount: 0,
        funded: false,
        claimable: false,
        emergency_cancelled: false,
        private_raise: false,
        is_token22: false,
        udpate_tge_attempts: 0,
        bump: 0,
    }
}

fn zero_buyer() -> Buyer {
    Buyer {
        principal: 0,
        fee: 0,
        withdrawn: 0,
        purchase_in_early_pool: 0,
        total_amount: 0,
        claimed_amount: 0,
        refunded: false,
    }
}

fn sample_uints() -> [u64; 18] {
    [
        1_000, 500, 2_000_000, 300, 100, 200, 4000, 6000, 1_000_000, 100, 200, 300, 3, 400, 2000, 50, 10, 4,
    ]
}

/// A pool owned by key 1, selling against purchase mint key 2, with a 20%
/// release at the token generation date (1000), a cliff of 100 and four
/// releases every 10 seconds.
fn vesting_pool() -> Pool {
    let mut pool = zero_pool();
    pool.owner = key(1);
    pool.purchase_token = key(2);
    pool.tge_date = 1000;
    pool.tge_percentage = 2000;
    pool.vesting_cliff = 100;
    pool.vesting_frequency = 10;
    pool.number_of_vesting = 4;
    pool
}

fn early_ctx() -> BuyInEarlyPool {
    let mut pool = vesting_pool();
    pool.early_start = 100;
    pool.early_end = 200;
    pool.funded = true;
    pool.early_participant_fee = 100;
    pool.max_buy_in_early_pool = 1_000_000_000;
    pool.offer_token.rate = 3;
    BuyInEarlyPool {
        signer: key(5),
        purchase_mint: key(2),
        purchase_mint_decimals: 2,
        offer_mint_decimals: 3,
        staker: Staker { total_amount: 120000, user: key(5), last_update: 0 },
        buyer: zero_buyer(),
        pool,
    }
}

#[test]
fn constants_of_the_launchpad() {
    assert_eq!(DENOMINATOR, 10000);
    assert_eq!(STAKE_LIMIT, 500);
    assert_eq!(MAX_TGE_DATE_ADJUSTMENT_ATTEMPTS, 2);
}

// -------------------------------------------------------------- create_pool

#[test]
fn create_pool_stores_the_parameters() {
    let mut ctx = CreatePool { creator: key(1), offer_mint: key(2), purchase_mint: key(3), pool: zero_pool() };
    assert_eq!(create_pool_handler(&mut ctx, sample_uints(), 9, 6, true, true, 254), Ok(()));
    let p = ctx.pool;
    assert_eq!(p.max_buy_for_kyc_user, 1_000);
    assert_eq!(p.max_buy_for_not_kyc_user, 500);
    assert_eq!(p.max_buy_in_early_pool, 2_000_000);
    assert_eq!(p.token_fee_percentage, 300);
    assert_eq!(p.early_participant_fee, 100);
    assert_eq!(p.open_participant_fee, 200);
    assert_eq!(p.early_pool_proportion, 4000);
    assert_eq!(p.open_pool_proportion, 6000);
    assert_eq!(p.total_raise_amount, 1_000_000);
    assert_eq!(p.early_start, 100);
    assert_eq!(p.early_end, 200);
    assert_eq!(p.open_start, 200);
    assert_eq!(p.open_end, 300);
    assert_eq!(p.offer_token.rate, 3);
    assert_eq!(p.offer_token.decimals, 9);
    assert_eq!(p.offer_token.mint.bytes, [2; 32]);
    assert_eq!(p.purchase_token.bytes, [3; 32]);
    assert_eq!(p.owner.bytes, [1; 32]);
    assert_eq!(p.tge_date, 400);
    assert_eq!(p.tge_percentage, 2000);
    assert_eq!(p.vesting_cliff, 50);
    assert_eq!(p.vesting_frequency, 10);
    assert_eq!(p.number_of_vesting, 4);
    assert!(p.private_raise);
    assert!(p.is_token22);
    assert_eq!(p.bump, 254);
    assert!(!p.funded);
    assert!(!p.claimable);
    assert_eq!(p.udpate_tge_attempts, 0);
}

#[test]
fn create_pool_takes_percentages_as_u16() {
    let mut uints = sample_uints();
    // 65536 + 5 is 5 once taken as u16
    uints[3] = 65541;
    let mut ctx = CreatePool { creator: key(1), offer_mint: key(2), purchase_mint: key(3), pool: zero_pool() };
    assert_eq!(create_pool_handler(&mut ctx, uints, 9, 6, false, false, 1), Ok(()));
    assert_eq!(ctx.pool.token_fee_percentage, 5);
}

#[test]
fn create_pool_refuses_bad_percentages() {
    for i in [3usize, 6, 7] {
        let mut uints = sample_uints();
        uints[i] = 10001;
        let mut ctx = CreatePool { creator: key(1), offer_mint: key(2), purchase_mint: key(3), pool: zero_pool() };
        assert_eq!(
            create_pool_handler(&mut ctx, uints, 9, 6, false, false, 1),
            Err(ErrCode::InvalidTokenFeePercentage)
        );
        assert_eq!(ctx.pool.owner.bytes, [0; 32]);
    }
    let mut uints = sample_uints();
    uints[3] = 10000;
    let mut ctx = CreatePool { creator: key(1), offer_mint: key(2), purchase_mint: key(3), pool: zero_pool() };
    assert_eq!(create_pool_handler(&mut ctx, uints, 9, 6, false, false, 1), Ok(()));
}

#[test]
fn create_pool_refuses_times_out_of_order() {
    for (i, v) in [(9usize, 201u64), (10, 301), (11, 401)] {
        let mut uints = sample_uints();
        uints[i] = v;
        let mut ctx = CreatePool { creator: key(1), offer_mint: key(2), purchase_mint: key(3), pool: zero_pool() };
        assert_eq!(create_pool_handler(&mut ctx, uints, 9, 6, false, false, 1), Err(ErrCode::InvalidTime));
    }
}

// ------------------------------------------------------ owner-only switches

#[test]
fn owner_switches() {
    let mut cancel = EmergencyCancel { owner: key(1), pool: vesting_pool() };
    assert_eq!(emergency_cancel_handler(&mut cancel), Ok(()));
    assert!(cancel.pool.emergency_cancelled);

    let mut fin = FinalizePool { owner: key(1), pool: vesting_pool() };
    assert_eq!(finalize_pool_handler(&mut fin), Ok(()));
    assert!(fin.pool.claimable);

    let mut toggle = ToggleClaimable { owner: key(1), pool: vesting_pool() };
    assert_eq!(toggle_claimable_handler(&mut toggle), Ok(()));
    assert!(toggle.pool.claimable);
    assert_eq!(toggle_claimable_handler(&mut toggle), Ok(()));
    assert!(!toggle.pool.claimable);
}

#[test]
fn owner_switches_refuse_strangers() {
    let mut cancel = EmergencyCancel { owner: key(9), pool: vesting_pool() };
    assert_eq!(emergency_cancel_handler(&mut cancel), Err(ErrCode::ConstraintHasOne));
    assert!(!cancel.pool.emergency_cancelled);
    let mut fin = FinalizePool { owner: key(9), pool: vesting_pool() };
    assert_eq!(finalize_pool_handler(&mut fin), Err(ErrCode::ConstraintHasOne));
    assert!(!fin.pool.claimable);
    let mut toggle = ToggleClaimable { owner: key(9), pool: vesting_pool() };
    assert_eq!(toggle_claimable_handler(&mut toggle), Err(ErrCode::ConstraintHasOne));
    assert!(!toggle.pool.claimable);
}

#[test]
fn tge_date_moves_at_most_twice() {
    let mut pool = vesting_pool();
    pool.open_end = 500;
    let mut ctx = UpdateTgeDate { owner: key(1), pool };
    assert_eq!(update_tge_date_handler(&mut ctx, 499), Err(ErrCode::InvalidTime));
    assert_eq!(update_tge_date_handler(&mut ctx, 500), Ok(()));
    assert_eq!(ctx.pool.tge_date, 500);
    assert_eq!(update_tge_date_handler(&mut ctx, 2000), Ok(()));
    assert_eq!(ctx.pool.tge_date, 2000);
    assert_eq!(ctx.pool.udpate_tge_attempts, 2);
    assert_eq!(
        update_tge_date_handler(&mut ctx, 3000),
        Err(ErrCode::NotAllowedToAdjustTGEDateExceedsAttempts)
    );
    assert_eq!(ctx.pool.tge_date, 2000);
    let mut other = UpdateTgeDate { owner: key(7), pool: vesting_pool() };
    assert_eq!(update_tge_date_handler(&mut other, 3000), Err(ErrCode::ConstraintHasOne));
}

// ---------------------------------------------------------------- funding

#[test]
fn fund_offer_counts_the_deposit() {
    let mut ctx =
        FundOffer { owner: key(1), offer_mint_decimals: 9, token_program_is_token_2022: false, pool: vesting_pool() };
    assert_eq!(fund_offer_handler(&mut ctx, 700), Ok(TokenTransfer::Transfer { amount: 700 }));
    assert_eq!(fund_offer_handler(&mut ctx, 300), Ok(TokenTransfer::Transfer { amount: 300 }));
    assert_eq!(ctx.pool.total_funded_amount, 1000);
    assert!(ctx.pool.funded);
    ctx.token_program_is_token_2022 = true;
    assert_eq!(fund_offer_handler(&mut ctx, 5), Ok(TokenTransfer::TransferChecked { amount: 5, decimals: 9 }));
    let mut other =
        FundOffer { owner: key(3), offer_mint_decimals: 9, token_program_is_token_2022: false, pool: vesting_pool() };
    assert_eq!(fund_offer_handler(&mut other, 5), Err(ErrCode::ConstraintHasOne));
    assert!(!other.pool.funded);
}

#[test]
fn withdraw_offer_after_tge_returns_the_funding() {
    let mut pool = vesting_pool();
    pool.total_funded_amount = 12345;
    let live = WithdrawOffer { owner: key(1), offer_mint_decimals: 6, token_program_is_token_2022: true, pool };
    assert_eq!(withdraw_offer_handler(&live, 999), Err(ErrCode::InvalidTime));
    // a sale that was not cancelled keeps its offered tokens
    assert_eq!(withdraw_offer_handler(&live, 1000), Err(ErrCode::NotWithdrawable));
    pool.emergency_cancelled = true;
    let ctx = WithdrawOffer { pool, ..live };
    assert_eq!(withdraw_offer_handler(&ctx, 999), Err(ErrCode::InvalidTime));
    assert_eq!(withdraw_offer_handler(&ctx, 1000), Ok(TokenTransfer::TransferChecked { amount: 12345, decimals: 6 }));
    let plain = WithdrawOffer { token_program_is_token_2022: false, ..ctx };
    assert_eq!(withdraw_offer_handler(&plain, 5000), Ok(TokenTransfer::Transfer { amount: 12345 }));
    let other = WithdrawOffer { owner: key(4), ..ctx };
    assert_eq!(withdraw_offer_handler(&other, 5000), Err(ErrCode::ConstraintHasOne));
}

#[test]
fn withdraw_purchase_splits_the_collection() {
    let mut pool = vesting_pool();
    pool.total_collect_amount = 1_000_000;
    pool.token_fee_percentage = 300;
    pool.total_fee = 4_000;
    let r = withdraw_purchase_handler(&WithdrawPurchase { pool });
    assert_eq!(r, PurchaseWithdrawal { reward_fund: 30_000 + 4_000, owner_amount: 970_000 });
    assert_eq!(r.reward_fund + r.owner_amount, 1_000_000 + 4_000);
}

// ------------------------------------------------------------ early purchase

#[test]
fn calculate_offer_amount_scales_by_decimals() {
    let mut pool = zero_pool();
    pool.offer_token.rate = 3;
    assert_eq!(pool.calculate_offer_amount(5_000_000, 6, 9), 15_000_000_000);
    // rounds down before scaling up
    assert_eq!(pool.calculate_offer_amount(999_999, 6, 9), 2_000_000_000);
    assert_eq!(pool.calculate_offer_amount(100, 0, 0), 300);
}

#[test]
fn buy_in_early_pool_records_the_purchase() {
    let mut ctx = early_ctx();
    // fee: 19999 / 10000 * 100 = 100; net 19899; offer 19899 * 3 / 100 * 1000 = 596000
    assert_eq!(buy_in_early_pool_handler(&mut ctx, 19999, 150), Ok(TokenTransfer::Transfer { amount: 19999 }));
    assert_eq!(ctx.buyer.principal, 19899);
    assert_eq!(ctx.buyer.purchase_in_early_pool, 19899);
    assert_eq!(ctx.buyer.fee, 100);
    assert_eq!(ctx.buyer.total_amount, 596000);
    assert_eq!(ctx.pool.total_collect_amount, 19899);
    assert_eq!(ctx.pool.collect_in_early_pool, 19899);
    assert_eq!(ctx.pool.total_sold, 596000);
    assert_eq!(ctx.pool.sold_in_early_pool, 596000);
    assert_eq!(ctx.pool.total_fee, 100);

    // a second purchase adds up
    assert_eq!(buy_in_early_pool_handler(&mut ctx, 100, 200), Ok(TokenTransfer::Transfer { amount: 100 }));
    assert_eq!(ctx.buyer.principal, 19999);
    assert_eq!(ctx.buyer.fee, 100);
    assert_eq!(ctx.buyer.total_amount, 596000 + 3000);
}

#[test]
fn buy_in_early_pool_refusals() {
    let base = early_ctx();

    let mut ctx = BuyInEarlyPool { signer: key(6), ..base };
    assert_eq!(buy_in_early_pool_handler(&mut ctx, 100, 150), Err(ErrCode::ConstraintRaw));
    let mut ctx = BuyInEarlyPool { purchase_mint: key(8), ..base };
    assert_eq!(buy_in_early_pool_handler(&mut ctx, 100, 150), Err(ErrCode::ConstraintRaw));

    let mut ctx = base;
    assert_eq!(buy_in_early_pool_handler(&mut ctx, 100, 99), Err(ErrCode::InvalidTime));
    assert_eq!(buy_in_early_pool_handler(&mut ctx, 100, 201), Err(ErrCode::InvalidTime));

    let mut ctx = base;
    ctx.pool.funded = false;
    assert_eq!(buy_in_early_pool_handler(&mut ctx, 100, 150), Err(ErrCode::NotFunded));

    let mut ctx = base;
    ctx.pool.max_buy_in_early_pool = 50;
    ctx.buyer.purchase_in_early_pool = 1;
    assert_eq!(buy_in_early_pool_handler(&mut ctx, 50, 150), Err(ErrCode::ExceedMaxPurchaseAmountForEarlyAccess));
    assert_eq!(buy_in_early_pool_handler(&mut ctx, 49, 150), Ok(TokenTransfer::Transfer { amount: 49 }));

    let mut ctx = base;
    ctx.staker.total_amount = 119999;
    assert_eq!(buy_in_early_pool_handler(&mut ctx, 100, 150), Err(ErrCode::NotEnoughStaker));
    assert_eq!(ctx.buyer.principal, 0);
    assert_eq!(ctx.pool.total_collect_amount, 0);
}

// ------------------------------------------------------------------ vesting

#[test]
fn claimable_amount_follows_the_schedule() {
    let pool = vesting_pool();
    // total 1000: 200 at the token generation date, then 200 per release
    assert_eq!(pool.claimable_amount_at(1000, 0, 1000), 200);
    assert_eq!(pool.claimable_amount_at(1000, 0, 1099), 200);
    assert_eq!(pool.claimable_amount_at(1000, 0, 1100), 400);
    assert_eq!(pool.claimable_amount_at(1000, 0, 1109), 400);
    assert_eq!(pool.claimable_amount_at(1000, 0, 1110), 600);
    assert_eq!(pool.claimable_amount_at(1000, 0, 1120), 800);
    assert_eq!(pool.claimable_amount_at(1000, 0, 1130), 1000);
    assert_eq!(pool.claimable_amount_at(1000, 0, 5000), 1000);
    assert_eq!(pool.claimable_amount_at(1000, 150, 1110), 450);
    assert_eq!(pool.claimable_amount_at(1000, 1000, 5000), 0);
    assert_eq!(pool.claimable_amount_at(1000, 2000, 5000), 0);
}

#[test]
fn claimable_amount_never_decreases_with_time() {
    let pool = vesting_pool();
    let mut last = 0;
    for now in 990..1200 {
        if now < 1000 {
            continue;
        }
        let c = pool.claimable_amount_at(777, 0, now);
        assert!(c >= last);
        assert!(c <= 777);
        last = c;
    }
    assert_eq!(last, 777);
}

#[test]
fn claim_offer_pays_what_is_unlocked() {
    let mut pool = vesting_pool();
    pool.claimable = true;
    pool.offer_token.decimals = 9;
    let mut buyer = zero_buyer();
    buyer.total_amount = 1000;
    buyer.claimed_amount = 100;
    let ctx = ClaimOffer { pool, buyer };
    assert_eq!(claim_offer_handler(&ctx, 999), Err(ErrCode::NotClaimable));
    assert_eq!(claim_offer_handler(&ctx, 1000), Ok(TokenTransfer::Transfer { amount: 100 }));
    assert_eq!(claim_offer_handler(&ctx, 1115), Ok(TokenTransfer::Transfer { amount: 500 }));
    let t22 = ClaimOffer { pool: Pool { is_token22: true, ..pool }, buyer };
    assert_eq!(claim_offer_handler(&t22, 1115), Ok(TokenTransfer::TransferChecked { amount: 500, decimals: 9 }));
    let closed = ClaimOffer { pool: Pool { claimable: false, ..pool }, buyer };
    assert_eq!(claim_offer_handler(&closed, 1115), Err(ErrCode::NotClaimable));
}

// ------------------------------------------------------------------ refunds

fn refund_ctx() -> RefundPurchase {
    let mut pool = vesting_pool();
    pool.emergency_cancelled = true;
    let mut buyer = zero_buyer();
    buyer.principal = 990;
    buyer.fee = 10;
    RefundPurchase { purchase_mint: key(2), buyer, pool }
}

#[test]
fn refund_returns_principal_and_fee_once() {
    let mut ctx = refund_ctx();
    assert_eq!(refund_purchase_handler(&mut ctx, 1000), Ok(TokenTransfer::Transfer { amount: 1000 }));
    assert!(ctx.buyer.refunded);
    assert_eq!(refund_purchase_handler(&mut ctx, 1000), Err(ErrCode::NotRefundable));
    assert_eq!(refund_purchase_handler(&mut ctx, 9000), Err(ErrCode::NotRefundable));
}

#[test]
fn refund_refusals() {
    let mut ctx = RefundPurchase { purchase_mint: key(3), ..refund_ctx() };
    assert_eq!(refund_purchase_handler(&mut ctx, 1000), Err(ErrCode::ConstraintRaw));

    let mut ctx = refund_ctx();
    ctx.pool.emergency_cancelled = false;
    assert_eq!(refund_purchase_handler(&mut ctx, 1000), Err(ErrCode::NotRefundable));

    let mut ctx = refund_ctx();
    assert_eq!(refund_purchase_handler(&mut ctx, 999), Err(ErrCode::NotRefundable));

    let mut ctx = refund_ctx();
    ctx.pool.claimable = true;
    assert_eq!(refund_purchase_handler(&mut ctx, 1000), Err(ErrCode::NotRefundable));

    let mut ctx = refund_ctx();
    ctx.buyer.claimed_amount = 1;
    assert_eq!(refund_purchase_handler(&mut ctx, 1000), Err(ErrCode::NotRefundable));
    assert!(!ctx.buyer.refunded);
}

#[test]
fn claimable_range_needs_a_frequency_after_the_cliff() {
    let mut pool = vesting_pool();
    assert!(claimable_in_range(&pool, 1000, 0, 1050));
    pool.vesting_frequency = 0;
    // before the vesting start nothing is divided
    assert!(claimable_in_range(&pool, 1000, 0, 1050));
    assert!(!claimable_in_range(&pool, 1000, 0, 1100));
    // claimed more than what was released at the token generation date
    let pool = vesting_pool();
    assert!(!claimable_in_range(&pool, 1000, 300, 1050));
    // everything claimed: nothing is computed
    assert!(claimable_in_range(&pool, 1000, 1000, 1050));
}

#[test]
fn early_purchase_range() {
    let ctx = early_ctx();
    assert!(buy_in_early_pool_in_range(&ctx, 19999, 150));
    // a fee rate above the denominator makes the fee exceed the amount
    let mut greedy = ctx;
    greedy.pool.early_participant_fee = 20000;
    assert!(!buy_in_early_pool_in_range(&greedy, 19999, 150));
    // outside the window the program fails before computing anything
    assert!(buy_in_early_pool_in_range(&greedy, 19999, 50));
    // twenty decimals do not fit in u64
    let mut wide = ctx;
    wide.purchase_mint_decimals = 20;
    assert!(!buy_in_early_pool_in_range(&wide, 19999, 150));
    wide.purchase_mint_decimals = 19;
    assert!(buy_in_early_pool_in_range(&wide, 19999, 150));
}

#[test]
fn other_ranges() {
    let mut pool = vesting_pool();
    pool.total_funded_amount = u64::MAX;
    let fund = FundOffer { owner: key(1), offer_mint_decimals: 9, token_program_is_token_2022: false, pool };
    assert!(!fund_offer_in_range(&fund, 1));
    assert!(fund_offer_in_range(&fund, 0));
    assert!(fund_offer_in_range(&FundOffer { owner: key(2), ..fund }, 1));

    let mut pool = vesting_pool();
    pool.total_collect_amount = 100;
    pool.token_fee_percentage = 20000;
    assert!(!withdraw_purchase_in_range(&pool));
    pool.token_fee_percentage = 10000;
    assert!(withdraw_purchase_in_range(&pool));

    let mut refund = refund_ctx();
    refund.buyer.principal = u64::MAX;
    assert!(!refund_purchase_in_range(&refund, 1000));
    assert!(refund_purchase_in_range(&refund, 999));

    let mut pool = vesting_pool();
    pool.claimable = true;
    pool.vesting_frequency = 0;
    let mut buyer = zero_buyer();
    buyer.total_amount = 1000;
    let claim = ClaimOffer { pool, buyer };
    assert!(!claim_offer_in_range(&claim, 2000));
    assert!(claim_offer_in_range(&claim, 500));
}

#[test]
fn offer_amount_never_decreases_with_payment() {
    let mut pool = zero_pool();
    pool.offer_token.rate = 7;
    let mut last = 0;
    for paid in 0..2000u64 {
        let offer = pool.calculate_offer_amount(paid, 3, 2);
        assert!(offer >= last);
        last = offer;
    }
    assert_eq!(last, 1999 * 7 / 1000 * 100);
}

#[test]
fn early_collection_stays_within_total() {
    let mut ctx = early_ctx();
    ctx.pool.total_collect_amount = 500;
    ctx.pool.total_sold = 500;
    for amount in [19999u64, 1, 12345, 99] {
        assert!(buy_in_early_pool_handler(&mut ctx, amount, 150).is_ok());
        assert!(ctx.pool.collect_in_early_pool <= ctx.pool.total_collect_amount);
        assert!(ctx.pool.sold_in_early_pool <= ctx.pool.total_sold);
        assert_eq!(ctx.pool.total_collect_amount - 500, ctx.buyer.principal);
        assert_eq!(ctx.pool.total_fee, ctx.buyer.fee);
    }
}

#[test]
fn claimable_amount_by_the_clock_needs_a_cluster() {
    // off-chain the clock sysvar cannot be read
    let pool = vesting_pool();
    assert_eq!(pool.calculate_claimable_amount(1000, 0), None);
}

#[test]
fn early_limit_counts_purchase_tokens() {
    let mut ctx = early_ctx();
    ctx.pool.max_buy_in_early_pool = 500;
    // a buyer holding many offered tokens but no early purchase may buy
    ctx.buyer.total_amount = 1000;
    assert_eq!(buy_in_early_pool_handler(&mut ctx, 100, 150), Ok(TokenTransfer::Transfer { amount: 100 }));
    assert_eq!(ctx.buyer.purchase_in_early_pool, 100);
    assert_eq!(buy_in_early_pool_handler(&mut ctx, 400, 150), Ok(TokenTransfer::Transfer { amount: 400 }));
    assert_eq!(ctx.buyer.purchase_in_early_pool, 500);
    assert_eq!(buy_in_early_pool_handler(&mut ctx, 1, 150), Err(ErrCode::ExceedMaxPurchaseAmountForEarlyAccess));
    assert_eq!(ctx.buyer.purchase_in_early_pool, 500);
}

#[test]
fn claimable_amount_by_the_clock_is_zero_once_all_is_claimed() {
    let pool = vesting_pool();
    assert_eq!(pool.calculate_claimable_amount(1000, 1000), Some(0));
    assert_eq!(pool.calculate_claimable_amount(1000, 5000), Some(0));
}

#[test]
fn funding_never_falls_over_instructions() {
    let mut fund =
        FundOffer { owner: key(1), offer_mint_decimals: 9, token_program_is_token_2022: false, pool: vesting_pool() };
    assert!(fund_offer_handler(&mut fund, 40).is_ok());
    let mut pool = fund.pool;
    let mut cancel = EmergencyCancel { owner: key(1), pool };
    assert!(emergency_cancel_handler(&mut cancel).is_ok());
    pool = cancel.pool;
    let mut toggle = ToggleClaimable { owner: key(1), pool };
    assert!(toggle_claimable_handler(&mut toggle).is_ok());
    pool = toggle.pool;
    let mut fin = FinalizePool { owner: key(1), pool };
    assert!(finalize_pool_handler(&mut fin).is_ok());
    pool = fin.pool;
    let mut tge = UpdateTgeDate { owner: key(1), pool };
    assert!(update_tge_date_handler(&mut tge, 5000).is_ok());
    pool = tge.pool;
    assert!(pool.funded);
    assert_eq!(pool.total_funded_amount, 40);
    let mut fund = FundOffer { pool, ..fund };
    assert!(fund_offer_handler(&mut fund, 2).is_ok());
    assert_eq!(fund.pool.total_funded_amount, 42);
}

#[test]
fn cancelled_sale_pays_no_claims() {
    let mut pool = vesting_pool();
    pool.claimable = true;
    pool.emergency_cancelled = true;
    let mut buyer = zero_buyer();
    buyer.total_amount = 1000;
    buyer.refunded = true;
    let ctx = ClaimOffer { pool, buyer };
    assert_eq!(claim_offer_handler(&ctx, 5000), Err(ErrCode::NotClaimable));
    assert!(claim_offer_in_range(&ctx, 5000));
}

#[test]
fn claimable_amount_checked_by_time() {
    let pool = vesting_pool();
    assert_eq!(pool.claimable_amount_checked(1000, 0, 1110), Some(600));
    assert_eq!(pool.claimable_amount_checked(1000, 1000, 1110), Some(0));
    // claimed more than what the token generation date released
    assert_eq!(pool.claimable_amount_checked(1000, 300, 1050), None);
    let mut still = vesting_pool();
    still.vesting_frequency = 0;
    assert_eq!(still.claimable_amount_checked(1000, 0, 1050), Some(200));
    assert_eq!(still.claimable_amount_checked(1000, 0, 1100), None);
}

#[test]
fn early_limit_refuses_totals_past_u64() {
    let mut ctx = early_ctx();
    ctx.pool.max_buy_in_early_pool = u64::MAX;
    ctx.buyer.purchase_in_early_pool = u64::MAX - 10;
    assert!(buy_in_early_pool_in_range(&ctx, 100, 150));
    assert_eq!(buy_in_early_pool_handler(&mut ctx, 100, 150), Err(ErrCode::ExceedMaxPurchaseAmountForEarlyAccess));
}
