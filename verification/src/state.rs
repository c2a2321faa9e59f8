//! The records the staking contract keeps: one per pool and one per position.
use vstd::prelude::*;
use crate::math::Decimal;

verus! {

/// What a pool keeps once its LP token has been replaced.
#[derive(Clone, Debug, PartialEq, Eq)]
pub struct MigrationParams {
    /// The pool's reward index when the LP token was replaced.
    pub index_snapshot: Decimal,
    /// The canonical address of the LP token that was replaced.
    pub deprecated_staking_token: Vec<u8>,
}

/// The record of one staking pool, keyed by its asset token.
#[derive(Clone, Debug, PartialEq, Eq)]
pub struct PoolInfo {
    /// Canonical address of the LP token that is staked in this pool.
    pub staking_token: Vec<u8>,
    /// Reward not distributed yet because nothing was bonded.
    pub pending_reward: u128,
    /// Short reward not distributed yet because nothing was bonded short.
    pub short_pending_reward: u128,
    /// Sum of the LP tokens bonded in this pool.
    pub total_bond_amount: u128,
    /// Sum of the short positions in this pool.
    pub total_short_amount: u128,
    /// Reward per bonded token accumulated so far.
    pub reward_index: Decimal,
    /// Reward per short token accumulated so far.
    pub short_reward_index: Decimal,
    pub premium_rate: Decimal,
    pub short_reward_weight: Decimal,
    pub premium_updated_time: u64,
    /// Set when the pool's LP token has been replaced.
    pub migration_params: Option<MigrationParams>,
}

/// The record of one staker's position in one pool (long or short).
#[derive(Clone, Copy, Debug, PartialEq, Eq)]
pub struct RewardInfo {
    /// The pool index at which the position's reward was last settled.
    pub index: Decimal,
    /// The amount the position holds.
    pub bond_amount: u128,
    /// Reward settled but not withdrawn yet.
    pub pending_reward: u128,
}

impl RewardInfo {
    /// The record of a position that holds nothing.
    pub fn empty() -> (r: RewardInfo)
        ensures
            r == empty_reward_info(),
    {
        RewardInfo { index: Decimal { atomics: 0 }, bond_amount: 0, pending_reward: 0 }
    }
}

/// A position that holds nothing and has nothing pending, at index `0`.
pub open spec fn empty_reward_info() -> RewardInfo {
    RewardInfo { index: Decimal { atomics: 0 }, bond_amount: 0, pending_reward: 0 }
}

/// The pool's reward index for long (`is_short == false`) or short positions.
pub open spec fn pool_index(pool: PoolInfo, is_short: bool) -> Decimal {
    if is_short {
        pool.short_reward_index
    } else {
        pool.reward_index
    }
}

/// The pool's total of long or short positions.
pub open spec fn pool_total(pool: PoolInfo, is_short: bool) -> u128 {
    if is_short {
        pool.total_short_amount
    } else {
        pool.total_bond_amount
    }
}

/// The pool with its long or short total replaced by `total`.
pub open spec fn with_pool_total(pool: PoolInfo, is_short: bool, total: u128) -> PoolInfo {
    if is_short {
        PoolInfo { total_short_amount: total, ..pool }
    } else {
        PoolInfo { total_bond_amount: total, ..pool }
    }
}

/// Whether two byte strings are equal.
pub fn bytes_eq(a: &Vec<u8>, b: &Vec<u8>) -> (r: bool)
    ensures
        r == (a@ == b@),
{
    if a.len() != b.len() {
        return false;
    }
    let mut i: usize = 0;
    while i < a.len()
        invariant
            a.len() == b.len(),
            i <= a.len(),
            forall|j: int| 0 <= j < i ==> a@[j] == b@[j],
        decreases a.len() - i,
    {
        if a[i] != b[i] {
            return false;
        }
        i = i + 1;
    }
    assert(a@ =~= b@);
    true
}

} // verus!
