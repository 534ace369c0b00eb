//! Numeric constants of the staking program.
use vstd::prelude::*;

verus! {

/// The least stake a user must hold to join an early pool: `10000 * (10 ^ 6)`
/// where `^` is exclusive or, that is `10000 * 12`.
pub const MIN_STAKE_AMOUNT: u64 = 120000;

/// Denominator of the fuel percentage and of the reward rate.
pub const REWARD_DENOMINATOR: u64 = 10000;

} // verus!
