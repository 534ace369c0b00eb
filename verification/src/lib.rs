//! Verified core of a token launchpad ("ignition") and of the staking
//! program it relies on ("stake").
//!
//! Each instruction of the two on-chain programs is a function from the
//! accounts it reads, the instruction arguments and the cluster time to the
//! new account state and the token movements to perform.  Moving tokens,
//! reading the clock for an instruction and checking account addresses is
//! left to the program shell that calls this library.
use vstd::prelude::*;

pub mod clock;
pub mod key;
pub mod math;
pub mod transfer;
pub mod stake;
pub mod ignition;

verus! {

} // verus!
