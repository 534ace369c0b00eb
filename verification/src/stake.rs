//! The staking program: users stake a token, receive a staked-token receipt
//! minus a fuel fee, and accrue a reward per block.
pub mod constants;
pub mod error;
pub mod state;
pub mod instructions;
pub mod laws;
