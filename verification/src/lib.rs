//! A per-user staking ledger: each vault escrows a principal balance,
//! accrues a linear time-proportional yield against it, and supports
//! withdrawing principal and claiming accrued yield.
//!
//! The crate verifies the reward-accrual arithmetic and the vault state
//! machine. Token movement, clocks and account plumbing are the host's
//! collaborators: every operation here works on plain values and tells the
//! host, through its result, which token-service call to perform.

pub mod engine;
pub mod error;
pub mod operations;
pub mod state;
