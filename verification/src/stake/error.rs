//! Errors of the staking program.
use vstd::prelude::*;

verus! {

/// Errors of the staking program.  The first three are the program's own;
/// `ConstraintHasOne` is the failure of an account check that ties a stored
/// key to the signer.
#[derive(Clone, Copy, Debug, PartialEq, Eq, Structural)]
pub enum ErrorCode {
    CustomError,
    Initialized,
    InvalidUnstakeAmount,
    ConstraintHasOne,
}

} // verus!
