//! Numeric constants of the launchpad.
use vstd::prelude::*;

verus! {

/// Denominator of every percentage of a pool (fees, proportions, the share
/// released at the token generation event).
pub const DENOMINATOR: u16 = 10000;

/// Stake limit of the launchpad.
pub const STAKE_LIMIT: u64 = 500;

/// How many times a pool's owner may move its token generation date.
pub const MAX_TGE_DATE_ADJUSTMENT_ATTEMPTS: u16 = 2;

} // verus!
