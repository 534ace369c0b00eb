//! Accounts of the staking program.
use vstd::prelude::*;
use crate::clock::current_unix_timestamp;
use crate::key::Key;
use crate::math::{i64_as_u64, cast_i64_to_u64, lemma_u64_product_fits_u128};
use crate::stake::constants::REWARD_DENOMINATOR;

verus! {

/// Global state of the staking program.
#[derive(Clone, Copy, Debug)]
pub struct AppState {
    pub total_staked: u128,
    pub reward_per_block: u64,
    pub reward_amount: u128,
    pub staker_counts: u64,
    pub owner: Key,
    pub initialized: bool,
    pub s_paid: Key,
    pub paid: Key,
    pub fuel_percentage: u16,
    pub is_token2022: bool,
    pub bump: u8,
}

/// One user's stake.
#[derive(Clone, Copy, Debug)]
pub struct Staker {
    pub total_amount: u64,
    pub user: Key,
    pub last_update: i64,
}

/// The reward for `total_amount` staked since `last_update`, as the program
/// computes it: the period is `last_update - now`, taken as `u64`.
pub open spec fn reward_for(reward_per_block: u64, total_amount: u64, last_update: i64, now: i64) -> int {
    (total_amount * i64_as_u64(last_update - now) * reward_per_block) / (REWARD_DENOMINATOR as int)
}

/// The reward computation stays within the machine integers.
pub open spec fn reward_defined(reward_per_block: u64, total_amount: u64, last_update: i64, now: i64) -> bool {
    &&& i64::MIN <= last_update - now <= i64::MAX
    &&& total_amount * i64_as_u64(last_update - now) <= u64::MAX
    &&& total_amount * i64_as_u64(last_update - now) * reward_per_block <= u64::MAX
}

/// Whether the reward computation stays within the machine integers.
pub fn reward_in_range(reward_per_block: u64, total_amount: u64, last_update: i64, now: i64) -> (r: bool)
    ensures
        r == reward_defined(reward_per_block, total_amount, last_update, now),
{
    let diff: i128 = last_update as i128 - now as i128;
    if diff < i64::MIN as i128 || diff > i64::MAX as i128 {
        return false;
    }
    let period_units: u64 = cast_i64_to_u64(diff as i64);
    proof {
        lemma_u64_product_fits_u128(total_amount, period_units);
    }
    let scaled: u128 = total_amount as u128 * period_units as u128;
    if scaled > u64::MAX as u128 {
        return false;
    }
    assert(scaled * reward_per_block <= u128::MAX) by (nonlinear_arith)
        requires
            scaled <= u64::MAX,
            reward_per_block <= u64::MAX,
    ;
    let full: u128 = scaled * reward_per_block as u128;
    full <= u64::MAX as u128
}

impl AppState {
    /// The reward owed now, by the cluster clock, to a stake of
    /// `total_amount` last updated at `last_update`.  `None` when the clock
    /// cannot be read or the computation at the time read would leave the
    /// machine integers.
    pub fn calculate_reward(&self, total_amount: u64, last_update: i64) -> (r: Option<u64>)
        ensures
            r matches Some(v) ==> exists|now: i64|
                reward_defined(self.reward_per_block, total_amount, last_update, now) && v == #[trigger] reward_for(
                    self.reward_per_block,
                    total_amount,
                    last_update,
                    now,
                ),
    {
        match current_unix_timestamp() {
            Some(now) => self.reward_checked(total_amount, last_update, now),
            None => None,
        }
    }

    /// The reward owed at `now` to a stake of `total_amount` last updated at
    /// `last_update`, or `None` when the computation at `now` would leave the
    /// machine integers.
    pub fn reward_checked(&self, total_amount: u64, last_update: i64, now: i64) -> (r: Option<u64>)
        ensures
            r == (if reward_defined(self.reward_per_block, total_amount, last_update, now) {
                Some(reward_for(self.reward_per_block, total_amount, last_update, now) as u64)
            } else {
                None
            }),
    {
        if reward_in_range(self.reward_per_block, total_amount, last_update, now) {
            Some(self.reward_at(total_amount, last_update, now))
        } else {
            None
        }
    }

    /// The reward owed to a stake of `total_amount` last updated at
    /// `last_update`, at time `now`.
    pub fn reward_at(&self, total_amount: u64, last_update: i64, now: i64) -> (amount: u64)
        requires
            reward_defined(self.reward_per_block, total_amount, last_update, now),
        ensures
            amount == reward_for(self.reward_per_block, total_amount, last_update, now),
    {
        let period: i64 = last_update - now;
        let period_units: u64 = cast_i64_to_u64(period);
        let amount: u64 = total_amount * period_units * self.reward_per_block / REWARD_DENOMINATOR;
        amount
    }
}

} // verus!
