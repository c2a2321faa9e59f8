//! Settling a position's reward against its pool's index.
use vstd::prelude::*;
use crate::error::StakingError;
use crate::math::{decimal_mul, mul_floor, mul_floor_fits, Decimal};
use crate::state::RewardInfo;

verus! {

/// The reward a position has earned since it was last settled, when the pool's
/// index is `pool_index`: `bond * pool_index - bond * index`, each product
/// rounded down. Negative when the pool index is below the position's.
pub open spec fn reward_accrued(info: RewardInfo, pool_index: Decimal) -> int {
    mul_floor(info.bond_amount as int, pool_index) - mul_floor(info.bond_amount as int, info.index)
}

/// Settling refuses a pool index that would take reward away.
pub open spec fn settle_underflows(info: RewardInfo, pool_index: Decimal) -> bool {
    mul_floor(info.bond_amount as int, pool_index) < mul_floor(info.bond_amount as int, info.index)
}

/// The position after its earned reward is moved to pending and its index set
/// to the pool's.
pub open spec fn settled(info: RewardInfo, pool_index: Decimal) -> RewardInfo {
    RewardInfo {
        index: pool_index,
        bond_amount: info.bond_amount,
        pending_reward: (info.pending_reward + reward_accrued(info, pool_index)) as u128,
    }
}

/// Settling runs without panicking: both products fit in 128 bits, and, when
/// settling goes through, so does the new pending reward.
pub open spec fn settle_fits(info: RewardInfo, pool_index: Decimal) -> bool {
    &&& mul_floor(info.bond_amount as int, pool_index) <= u128::MAX
    &&& mul_floor(info.bond_amount as int, info.index) <= u128::MAX
    &&& (settle_underflows(info, pool_index) || info.pending_reward + reward_accrued(
        info,
        pool_index,
    ) <= u128::MAX)
}

/// The overflow error that settling reports.
pub open spec fn settle_error(info: RewardInfo, pool_index: Decimal) -> StakingError {
    StakingError::SubtractionOverflow {
        minuend: mul_floor(info.bond_amount as int, pool_index) as u128,
        subtrahend: mul_floor(info.bond_amount as int, info.index) as u128,
    }
}

/// Moves the reward a position earned up to `pool_index` into its pending
/// reward, and sets its index to `pool_index`; done before the position's share
/// of the pool changes.
pub fn before_share_change(pool_index: Decimal, reward_info: &mut RewardInfo) -> (r: Result<
    (),
    StakingError,
>)
    requires
        settle_fits(*old(reward_info), pool_index),
    ensures
        settle_underflows(*old(reward_info), pool_index) ==> r == Err::<(), StakingError>(
            settle_error(*old(reward_info), pool_index),
        ) && *final(reward_info) == *old(reward_info),
        !settle_underflows(*old(reward_info), pool_index) ==> r is Ok && *final(reward_info)
            == settled(*old(reward_info), pool_index),
{
    let earned = decimal_mul(reward_info.bond_amount, pool_index);
    let counted = decimal_mul(reward_info.bond_amount, reward_info.index);
    if earned < counted {
        return Err(StakingError::SubtractionOverflow { minuend: earned, subtrahend: counted });
    }
    let pending_reward = earned - counted;
    reward_info.index = pool_index;
    reward_info.pending_reward = reward_info.pending_reward + pending_reward;
    Ok(())
}

/// Whether settling a position at `pool_index` runs without panicking.
pub fn settle_would_fit(info: &RewardInfo, pool_index: Decimal) -> (b: bool)
    ensures
        b == settle_fits(*info, pool_index),
{
    if !mul_floor_fits(info.bond_amount, pool_index) || !mul_floor_fits(info.bond_amount, info.index) {
        return false;
    }
    let earned = decimal_mul(info.bond_amount, pool_index);
    let counted = decimal_mul(info.bond_amount, info.index);
    earned < counted || earned - counted <= u128::MAX - info.pending_reward
}

} // verus!
