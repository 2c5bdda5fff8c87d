//! Reward accounting for a staking pool: participants deposit a stake asset,
//! a reward asset accrues to them linearly over time in proportion to their
//! share of the pool, and they may withdraw their stake or claim the reward.
//!
//! The ledger arithmetic, the record layouts and the instruction format are
//! verified here; moving tokens and storing records is left to the host.

pub mod error;
pub mod codec;
pub mod state;
pub mod rewards;
pub mod processor;
pub mod laws;
pub mod pda_helper;
pub mod instruction;
pub mod accounts;
pub mod steps;
