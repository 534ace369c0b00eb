//! Accounts of the launchpad and the two computations on a pool: how many
//! offered tokens a purchase buys, and how many a buyer may claim.
use vstd::prelude::*;
use vstd::arithmetic::power::pow;
use crate::clock::current_unix_timestamp;
use crate::key::Key;
use crate::math::{pow10, i64_as_u64, cast_i64_to_u64, div_toward_zero, div_i64, lemma_u64_product_fits_u128};
use crate::ignition::constants::DENOMINATOR;

verus! {

/// The token a pool sells: its price rate, its mint and the mint's decimals.
#[derive(Clone, Copy, Debug)]
pub struct OfferToken {
    pub rate: u64,
    pub mint: Key,
    pub decimals: u8,
}

/// A sale pool.
#[derive(Clone, Copy, Debug)]
pub struct Pool {
    pub owner: Key,
    pub offer_token: OfferToken,
    pub purchase_token: Key,
    pub total_raise_amount: u64,
    pub total_collect_amount: u64,
    pub total_sold: u64,
    pub token_fee_percentage: u16,
    pub total_fee: u64,
    // early pool
    pub max_buy_in_early_pool: u64,
    pub early_start: i64,
    pub early_end: i64,
    pub collect_in_early_pool: u64,
    pub sold_in_early_pool: u64,
    pub early_pool_proportion: u16,
    pub early_participant_fee: u16,
    // open pool
    pub max_buy_for_kyc_user: u64,
    pub max_buy_for_not_kyc_user: u64,
    pub open_start: i64,
    pub open_end: i64,
    pub open_pool_proportion: u16,
    pub open_participant_fee: u16,
    // vesting
    pub tge_date: i64,
    pub tge_percentage: u16,
    pub vesting_cliff: i64,
    pub vesting_frequency: i64,
    pub number_of_vesting: u16,
    pub total_funded_amount: u64,
    pub funded: bool,
    pub claimable: bool,
    pub emergency_cancelled: bool,
    pub private_raise: bool,
    pub is_token22: bool,
    pub udpate_tge_attempts: u16,
    pub bump: u8,
}

/// One investor's position in a pool.  `principal`, `fee` and
/// `purchase_in_early_pool` count purchase-token units; `total_amount` and
/// `claimed_amount` count offered-token units.
#[derive(Clone, Copy, Debug)]
pub struct Buyer {
    pub principal: u64,
    pub fee: u64,
    pub withdrawn: u64,
    pub purchase_in_early_pool: u64,
    pub total_amount: u64,
    pub claimed_amount: u64,
    pub refunded: bool,
}

// ------------------------------------------------------------ offer amount

/// Offered tokens bought with `purchase_amount` at `rate`: the product is
/// scaled down by the purchase token's decimals and then up by the offered
/// token's, each step rounding down.
pub open spec fn offer_amount_for(rate: u64, purchase_amount: u64, purchase_decimals: u8, offer_decimals: u8) -> int {
    (purchase_amount * rate) / pow(10, purchase_decimals as nat) * pow(10, offer_decimals as nat)
}

/// The offer computation stays within `u64`.
pub open spec fn offer_amount_defined(rate: u64, purchase_amount: u64, purchase_decimals: u8, offer_decimals: u8) -> bool {
    &&& purchase_amount * rate <= u64::MAX
    &&& pow(10, purchase_decimals as nat) <= u64::MAX
    &&& pow(10, offer_decimals as nat) <= u64::MAX
    &&& offer_amount_for(rate, purchase_amount, purchase_decimals, offer_decimals) <= u64::MAX
}

// ----------------------------------------------------------------- vesting

/// The share of `total_amount` released at the token generation event.
pub open spec fn tge_amount(pool: Pool, total_amount: u64) -> int {
    (total_amount * pool.tge_percentage) / (DENOMINATOR as int)
}

/// The time at which releases after the token generation event begin.
pub open spec fn vesting_start(pool: Pool) -> int {
    pool.tge_date + pool.vesting_cliff
}

/// The number of releases that have happened at `now` (from
/// `vesting_start` on): one at the start, then one per `vesting_frequency`.
pub open spec fn release_index(pool: Pool, now: i64) -> int {
    div_toward_zero(now - pool.tge_date - pool.vesting_cliff, pool.vesting_frequency as int) + 1
}

/// How much of `total_amount` is unlocked at `now`: the share released at
/// the token generation event until `vesting_start`; then, in
/// `number_of_vesting` equal steps, the rest; all of it from the last step
/// on.
pub open spec fn vested_amount(pool: Pool, total_amount: u64, now: i64) -> int {
    let tge = tge_amount(pool, total_amount);
    if now < vesting_start(pool) {
        tge
    } else if release_index(pool, now) >= pool.number_of_vesting {
        total_amount as int
    } else {
        (i64_as_u64(release_index(pool, now)) * (total_amount - tge)) / (pool.number_of_vesting as int) + tge
    }
}

/// What a buyer holding `total_amount` who has claimed `claimed_amount` may
/// claim at `now`: nothing once all is claimed, else the unlocked amount less
/// what was claimed.
pub open spec fn claimable_amount(pool: Pool, total_amount: u64, claimed_amount: u64, now: i64) -> int {
    if claimed_amount >= total_amount {
        0
    } else {
        vested_amount(pool, total_amount, now) - claimed_amount
    }
}

/// The claim computation stays within the machine integers and divides by
/// no zero.
pub open spec fn claimable_defined(pool: Pool, total_amount: u64, claimed_amount: u64, now: i64) -> bool {
    claimed_amount >= total_amount || {
        let tge = tge_amount(pool, total_amount);
        &&& total_amount * pool.tge_percentage <= u64::MAX
        &&& i64::MIN <= vesting_start(pool) <= i64::MAX
        &&& if now < vesting_start(pool) {
            claimed_amount <= tge
        } else {
            let ri = release_index(pool, now);
            &&& pool.vesting_frequency != 0
            &&& i64::MIN <= now - pool.tge_date <= i64::MAX
            &&& now - pool.tge_date - pool.vesting_cliff <= i64::MAX
            &&& ri <= i64::MAX
            &&& ri < pool.number_of_vesting ==> {
                let vested = (i64_as_u64(ri) * (total_amount - tge)) / (pool.number_of_vesting as int);
                &&& tge <= total_amount
                &&& pool.number_of_vesting != 0
                &&& i64_as_u64(ri) * (total_amount - tge) <= u64::MAX
                &&& vested + tge <= u64::MAX
                &&& claimed_amount <= vested + tge
            }
        }
    }
}

/// Whether the claim computation stays within the machine integers and
/// divides by no zero.
pub fn claimable_in_range(pool: &Pool, total_amount: u64, claimed_amount: u64, now: i64) -> (r: bool)
    ensures
        r == claimable_defined(*pool, total_amount, claimed_amount, now),
{
    if claimed_amount >= total_amount {
        return true;
    }
    proof {
        lemma_u64_product_fits_u128(total_amount, pool.tge_percentage as u64);
    }
    let weighted: u128 = total_amount as u128 * pool.tge_percentage as u128;
    if weighted > u64::MAX as u128 {
        return false;
    }
    let tge_amount: u64 = (weighted / DENOMINATOR as u128) as u64;
    let start: i128 = pool.tge_date as i128 + pool.vesting_cliff as i128;
    if start < i64::MIN as i128 || start > i64::MAX as i128 {
        return false;
    }
    if (now as i128) < start {
        return claimed_amount <= tge_amount;
    }
    if pool.vesting_frequency == 0 {
        return false;
    }
    let since_tge: i128 = now as i128 - pool.tge_date as i128;
    if since_tge < i64::MIN as i128 || since_tge > i64::MAX as i128 {
        return false;
    }
    let elapsed: i128 = since_tge - pool.vesting_cliff as i128;
    if elapsed > i64::MAX as i128 {
        return false;
    }
    let steps: i64 = div_i64(elapsed as i64, pool.vesting_frequency);
    if steps == i64::MAX {
        return false;
    }
    let release_index: i64 = steps + 1;
    if release_index >= pool.number_of_vesting as i64 {
        return true;
    }
    if tge_amount > total_amount || pool.number_of_vesting == 0 {
        return false;
    }
    let released_steps: u64 = cast_i64_to_u64(release_index);
    proof {
        lemma_u64_product_fits_u128(released_steps, (total_amount - tge_amount) as u64);
    }
    let released: u128 = released_steps as u128 * (total_amount - tge_amount) as u128;
    if released > u64::MAX as u128 {
        return false;
    }
    let vested: u128 = released / pool.number_of_vesting as u128;
    if vested + tge_amount as u128 > u64::MAX as u128 {
        return false;
    }
    claimed_amount as u128 <= vested + tge_amount as u128
}

impl Pool {
    /// Offered tokens bought with `purchase_amount` of the purchase token.
    pub fn calculate_offer_amount(&self, purchase_amount: u64, purchase_decimals: u8, offer_decimals: u8) -> (r: u64)
        requires
            offer_amount_defined(self.offer_token.rate, purchase_amount, purchase_decimals, offer_decimals),
        ensures
            r == offer_amount_for(self.offer_token.rate, purchase_amount, purchase_decimals, offer_decimals),
    {
        let scaled: u64 = purchase_amount * self.offer_token.rate / pow10(purchase_decimals as u32);
        let offer_amount: u64 = scaled * pow10(offer_decimals as u32);
        offer_amount
    }

    /// Offered tokens a buyer holding `total_amount` who has claimed
    /// `claimed_amount` may claim now, by the cluster clock.  Nothing once
    /// all is claimed, without reading the clock; otherwise `None` when the
    /// clock cannot be read or the computation at the time read would leave
    /// the machine integers.
    pub fn calculate_claimable_amount(&self, total_amount: u64, claimed_amount: u64) -> (r: Option<u64>)
        ensures
            claimed_amount >= total_amount ==> r == Some(0u64),
            r matches Some(v) ==> exists|now: i64|
                claimable_defined(*self, total_amount, claimed_amount, now) && v == #[trigger] claimable_amount(
                    *self,
                    total_amount,
                    claimed_amount,
                    now,
                ),
    {
        if claimed_amount >= total_amount {
            assert(claimable_defined(*self, total_amount, claimed_amount, 0) && claimable_amount(
                *self,
                total_amount,
                claimed_amount,
                0,
            ) == 0);
            return Some(0);
        }
        match current_unix_timestamp() {
            Some(now) => self.claimable_amount_checked(total_amount, claimed_amount, now),
            None => None,
        }
    }

    /// Offered tokens a buyer may claim at `now`, or `None` when the
    /// computation at `now` would leave the machine integers or divide by
    /// zero.
    pub fn claimable_amount_checked(&self, total_amount: u64, claimed_amount: u64, now: i64) -> (r: Option<u64>)
        ensures
            r == (if claimable_defined(*self, total_amount, claimed_amount, now) {
                Some(claimable_amount(*self, total_amount, claimed_amount, now) as u64)
            } else {
                None
            }),
    {
        if claimable_in_range(self, total_amount, claimed_amount, now) {
            Some(self.claimable_amount_at(total_amount, claimed_amount, now))
        } else {
            None
        }
    }

    /// Offered tokens a buyer may claim at `now`.
    pub fn claimable_amount_at(&self, total_amount: u64, claimed_amount: u64, now: i64) -> (r: u64)
        requires
            claimable_defined(*self, total_amount, claimed_amount, now),
        ensures
            r == claimable_amount(*self, total_amount, claimed_amount, now),
    {
        if claimed_amount >= total_amount {
            return 0;
        }
        let tge_amount: u64 = (total_amount * self.tge_percentage as u64) / DENOMINATOR as u64;
        if now < self.tge_date + self.vesting_cliff {
            return tge_amount - claimed_amount;
        }
        let elapsed: i64 = now - self.tge_date - self.vesting_cliff;
        let steps: i64 = div_i64(elapsed, self.vesting_frequency);
        let release_index: i64 = steps + 1;
        if release_index >= self.number_of_vesting as i64 || self.vesting_frequency == 0 {
            return total_amount - claimed_amount;
        }
        let total_claimable_except_tge_amount: u64 = total_amount - tge_amount;
        let released_steps: u64 = cast_i64_to_u64(release_index);
        released_steps * total_claimable_except_tge_amount / self.number_of_vesting as u64 + tge_amount
            - claimed_amount
    }
}

} // verus!
