//! Errors of the launchpad.
use vstd::prelude::*;

verus! {

/// Errors of the launchpad.  `NotWithdrawable` refuses taking back the
/// offered tokens of a sale that was not cancelled.  The last two are failures of the account checks
/// that an instruction declares: `ConstraintHasOne` when a stored key is not
/// the signer's, `ConstraintRaw` when a stored key does not match an account
/// passed in.
#[derive(Clone, Copy, Debug, PartialEq, Eq, Structural)]
pub enum ErrCode {
    InvalidTime,
    NotFunded,
    ExceedMaxPurchaseAmountForEarlyAccess,
    NotEnoughStaker,
    NotClaimable,
    InvalidTokenFeePercentage,
    NotRefundable,
    NotAllowedToAdjustTGEDateExceedsAttempts,
    NotWithdrawable,
    ConstraintHasOne,
    ConstraintRaw,
}

} // verus!
