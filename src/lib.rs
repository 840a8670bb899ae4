//! A staking ledger: per-owner records that accrue time-based rewards,
//! with cooldown-gated compounding and claiming and a protocol fee split.

pub mod account;
pub mod fee;
pub mod ledger;
pub mod laws;
