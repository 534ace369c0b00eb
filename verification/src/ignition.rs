//! The launchpad program: a project creates a sale pool, funds it with the
//! offered token, investors buy in during the early window, and after the
//! token generation event they claim their tokens on a vesting schedule, or
//! get a refund if the sale was cancelled.
pub mod constants;
pub mod error;
pub mod state;
pub mod instructions;
pub mod laws;
