//! Stake-and-reward accounting: a staker escrows tokens of one mint, accrues a
//! reward proportional to the slots that pass, and takes principal and reward
//! back, partially or fully.

pub mod accounts;
pub mod errors;
pub mod instructions;
pub mod laws;
pub mod reward;
pub mod state;

pub use accounts::{Initialize, Stake, Unstake, UnstakeOutcome};
pub use errors::AppError;
pub use instructions::{initialize, stake, unstake};
pub use state::{Address, StakeInfo};
