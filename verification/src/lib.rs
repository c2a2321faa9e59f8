//! Bonding, unbonding and reward bookkeeping of a liquidity staking pool.
pub mod math;
pub mod error;
pub mod state;
pub mod rewards;
pub mod bonding;
pub mod asset;
pub mod staking;
pub mod auto_stake;
pub mod laws;
