//! Custody ledger for a single-mint staking pool: deterministic account
//! addressing, authorization of a deposit, and overflow-checked bookkeeping.
pub mod address;
pub mod laws;
pub mod stake;
pub mod state;
