//! How bonding and unbonding change a pool and a position.
use vstd::prelude::*;
use crate::error::{checked_sub, StakingError};
use crate::math::{decimal_mul, Decimal};
use crate::rewards::{
    before_share_change, settle_error, settle_fits, settle_underflows, settle_would_fit, settled,
};
use crate::state::{
    empty_reward_info, pool_index, pool_total, with_pool_total, PoolInfo, RewardInfo,
};

verus! {

/// What bonding writes back: the pool, the position, and whether the position
/// is to be recorded as migrated.
#[derive(Clone, Debug, PartialEq, Eq)]
pub struct IncreaseOutcome {
    pub pool_info: PoolInfo,
    pub reward_info: RewardInfo,
    pub mark_migrated: bool,
}

/// What becomes of a position's record after unbonding.
#[derive(Clone, Copy, Debug, PartialEq, Eq)]
pub enum RewardUpdate {
    /// The record is kept with these values.
    Save(RewardInfo),
    /// The record is deleted: it holds nothing and has nothing pending.
    Remove,
}

/// What unbonding writes back, and the LP token the unbonded amount is paid in.
#[derive(Clone, Debug, PartialEq, Eq)]
pub struct DecreaseOutcome {
    pub pool_info: PoolInfo,
    pub reward_update: RewardUpdate,
    pub mark_migrated: bool,
    pub staking_token: Vec<u8>,
}

/// The stored position, or an empty one for a staker with no record.
pub open spec fn stored_or_empty(reward_info: Option<RewardInfo>) -> RewardInfo {
    match reward_info {
        Some(r) => r,
        None => empty_reward_info(),
    }
}

/// Whether the pool's LP token was replaced, so that long positions are migrated.
pub open spec fn pool_migrated(pool: PoolInfo) -> bool {
    pool.migration_params is Some
}

/// Bonding into a migrated pool is refused while the position still holds the
/// deprecated LP token.
pub open spec fn bond_blocked(
    pool: PoolInfo,
    reward: RewardInfo,
    is_position_migrated: bool,
    is_short: bool,
) -> bool {
    !is_short && pool_migrated(pool) && reward.bond_amount != 0 && !is_position_migrated
}

/// The pool after `amount` more is bonded.
pub open spec fn pool_after_increase(pool: PoolInfo, amount: u128, is_short: bool) -> PoolInfo {
    with_pool_total(pool, is_short, (pool_total(pool, is_short) + amount) as u128)
}

/// The position after its reward is settled at `index` and `amount` more bonded.
pub open spec fn reward_after_increase(reward: RewardInfo, index: Decimal, amount: u128) -> RewardInfo {
    RewardInfo { bond_amount: (reward.bond_amount + amount) as u128, ..settled(reward, index) }
}

/// Bonding runs without panicking.
pub open spec fn increase_fits(
    pool: PoolInfo,
    reward: RewardInfo,
    is_position_migrated: bool,
    amount: u128,
    is_short: bool,
) -> bool {
    let index = pool_index(pool, is_short);
    bond_blocked(pool, reward, is_position_migrated, is_short) || (settle_fits(reward, index) && (
    settle_underflows(reward, index) || (pool_total(pool, is_short) + amount <= u128::MAX
        && reward.bond_amount + amount <= u128::MAX)))
}

/// What bonding answers: refused while the position holds a deprecated LP
/// token, refused when settling would take reward away, and otherwise the pool
/// and position with `amount` added and the reward settled.
pub open spec fn increase_result(
    pool: PoolInfo,
    reward_info: Option<RewardInfo>,
    is_position_migrated: bool,
    amount: u128,
    is_short: bool,
) -> Result<IncreaseOutcome, StakingError> {
    let reward = stored_or_empty(reward_info);
    let index = pool_index(pool, is_short);
    if bond_blocked(pool, reward, is_position_migrated, is_short) {
        Err(StakingError::DeprecatedLpToken)
    } else if settle_underflows(reward, index) {
        Err(settle_error(reward, index))
    } else {
        Ok(
            IncreaseOutcome {
                pool_info: pool_after_increase(pool, amount, is_short),
                reward_info: reward_after_increase(reward, index, amount),
                mark_migrated: !is_short && pool_migrated(pool) && !is_position_migrated,
            },
        )
    }
}

/// Whether bonding runs without panicking, so that `increase_bond_amount` may
/// be asked.
pub fn increase_would_fit(
    pool_info: &PoolInfo,
    reward_info: &Option<RewardInfo>,
    is_position_migrated: bool,
    amount: u128,
    is_short: bool,
) -> (b: bool)
    ensures
        b == increase_fits(*pool_info, stored_or_empty(*reward_info), is_position_migrated, amount, is_short),
{
    let reward = match reward_info {
        Some(r) => *r,
        None => RewardInfo::empty(),
    };
    if !is_short && pool_info.migration_params.is_some() && reward.bond_amount != 0
        && !is_position_migrated {
        return true;
    }
    let (index, total) = if is_short {
        (pool_info.short_reward_index, pool_info.total_short_amount)
    } else {
        (pool_info.reward_index, pool_info.total_bond_amount)
    };
    if !settle_would_fit(&reward, index) {
        return false;
    }
    let earned = decimal_mul(reward.bond_amount, index);
    let counted = decimal_mul(reward.bond_amount, reward.index);
    earned < counted || (amount <= u128::MAX - total && amount <= u128::MAX - reward.bond_amount)
}

/// Adds `amount` to a position and to its pool's long or short total, settling
/// the position's reward first. `reward_info` is the stored position, `None`
/// when the staker has none; `is_position_migrated` whether the position is
/// recorded as migrated.
pub fn increase_bond_amount(
    pool_info: PoolInfo,
    reward_info: Option<RewardInfo>,
    is_position_migrated: bool,
    amount: u128,
    is_short: bool,
) -> (r: Result<IncreaseOutcome, StakingError>)
    requires
        increase_fits(pool_info, stored_or_empty(reward_info), is_position_migrated, amount, is_short),
    ensures
        r == increase_result(pool_info, reward_info, is_position_migrated, amount, is_short),
{
    let mut reward_info = match reward_info {
        Some(r) => r,
        None => RewardInfo::empty(),
    };
    let mut mark_migrated = false;
    if !is_short && pool_info.migration_params.is_some() {
        if reward_info.bond_amount != 0 && !is_position_migrated {
            return Err(StakingError::DeprecatedLpToken);
        } else if !is_position_migrated {
            mark_migrated = true;
        }
    }
    let index = if is_short {
        pool_info.short_reward_index
    } else {
        pool_info.reward_index
    };
    before_share_change(index, &mut reward_info)?;
    let mut pool_info = pool_info;
    if is_short {
        pool_info.total_short_amount = pool_info.total_short_amount + amount;
    } else {
        pool_info.total_bond_amount = pool_info.total_bond_amount + amount;
    }
    reward_info.bond_amount = reward_info.bond_amount + amount;
    Ok(IncreaseOutcome { pool_info, reward_info, mark_migrated })
}

/// Unbonding from a migrated pool pays out the deprecated LP token at the index
/// snapshot until the position has been fully withdrawn once.
pub open spec fn should_migrate(pool: PoolInfo, is_position_migrated: bool, is_short: bool) -> bool {
    !is_position_migrated && !is_short && pool_migrated(pool)
}

/// The index a position is settled at when it unbonds.
pub open spec fn unbond_index(pool: PoolInfo, is_position_migrated: bool, is_short: bool) -> Decimal {
    if is_short {
        pool.short_reward_index
    } else if should_migrate(pool, is_position_migrated, is_short) {
        pool.migration_params->Some_0.index_snapshot
    } else {
        pool.reward_index
    }
}

/// The LP token an unbonded amount is paid in.
pub open spec fn unbond_token(pool: PoolInfo, is_position_migrated: bool, is_short: bool) -> Seq<u8> {
    if !is_short && should_migrate(pool, is_position_migrated, is_short) {
        pool.migration_params->Some_0.deprecated_staking_token@
    } else {
        pool.staking_token@
    }
}

/// Whether unbonding takes `amount` off the pool's total: short positions and
/// positions not being migrated do; a migrating position's tokens were already
/// taken off when the pool migrated.
pub open spec fn reduces_total(pool: PoolInfo, is_position_migrated: bool, is_short: bool) -> bool {
    is_short || !should_migrate(pool, is_position_migrated, is_short)
}

/// The pool after `amount` is unbonded.
pub open spec fn pool_after_decrease(
    pool: PoolInfo,
    is_position_migrated: bool,
    amount: u128,
    is_short: bool,
) -> PoolInfo {
    if reduces_total(pool, is_position_migrated, is_short) {
        with_pool_total(pool, is_short, (pool_total(pool, is_short) - amount) as u128)
    } else {
        pool
    }
}

/// The position after its reward is settled at `index` and `amount` unbonded.
pub open spec fn reward_after_decrease(reward: RewardInfo, index: Decimal, amount: u128) -> RewardInfo {
    RewardInfo { bond_amount: (reward.bond_amount - amount) as u128, ..settled(reward, index) }
}

/// The record is deleted when it holds nothing and has nothing pending.
pub open spec fn reward_update_for(reward: RewardInfo) -> RewardUpdate {
    if reward.pending_reward == 0 && reward.bond_amount == 0 {
        RewardUpdate::Remove
    } else {
        RewardUpdate::Save(reward)
    }
}

/// Unbonding runs without panicking.
pub open spec fn decrease_fits(
    pool: PoolInfo,
    reward: RewardInfo,
    is_position_migrated: bool,
    amount: u128,
    is_short: bool,
) -> bool {
    reward.bond_amount < amount || settle_fits(
        reward,
        unbond_index(pool, is_position_migrated, is_short),
    )
}

/// What unbonding writes back, leaving out the LP token it is paid in.
pub open spec fn decrease_effect(r: Result<DecreaseOutcome, StakingError>) -> Result<
    (PoolInfo, RewardUpdate, bool),
    StakingError,
> {
    match r {
        Ok(o) => Ok((o.pool_info, o.reward_update, o.mark_migrated)),
        Err(e) => Err(e),
    }
}

/// What unbonding answers: refused beyond the bonded amount, refused when
/// settling would take reward away, refused when the pool's total is below the
/// amount, and otherwise the pool, the position's record and the migration mark
/// after `amount` is taken off and the reward settled.
pub open spec fn decrease_result(
    pool: PoolInfo,
    reward: RewardInfo,
    is_position_migrated: bool,
    amount: u128,
    is_short: bool,
) -> Result<(PoolInfo, RewardUpdate, bool), StakingError> {
    let index = unbond_index(pool, is_position_migrated, is_short);
    let total = pool_total(pool, is_short);
    let after = reward_after_decrease(reward, index, amount);
    if reward.bond_amount < amount {
        Err(StakingError::UnbondExceedsBond)
    } else if settle_underflows(reward, index) {
        Err(settle_error(reward, index))
    } else if reduces_total(pool, is_position_migrated, is_short) && total < amount {
        Err(StakingError::SubtractionOverflow { minuend: total, subtrahend: amount })
    } else {
        Ok(
            (
                pool_after_decrease(pool, is_position_migrated, amount, is_short),
                reward_update_for(after),
                after.bond_amount == 0 && should_migrate(pool, is_position_migrated, is_short),
            ),
        )
    }
}

/// Whether unbonding runs without panicking, so that `decrease_bond_amount` may
/// be asked.
pub fn decrease_would_fit(
    pool_info: &PoolInfo,
    reward_info: &RewardInfo,
    is_position_migrated: bool,
    amount: u128,
    is_short: bool,
) -> (b: bool)
    ensures
        b == decrease_fits(*pool_info, *reward_info, is_position_migrated, amount, is_short),
{
    if reward_info.bond_amount < amount {
        return true;
    }
    let should_migrate = !is_position_migrated && !is_short && pool_info.migration_params.is_some();
    let index = if is_short {
        pool_info.short_reward_index
    } else if should_migrate {
        match &pool_info.migration_params {
            Some(params) => params.index_snapshot,
            None => pool_info.reward_index,
        }
    } else {
        pool_info.reward_index
    };
    settle_would_fit(reward_info, index)
}

/// Takes `amount` off a position, and off its pool's long or short total where
/// that applies, settling the position's reward first; answers the LP token the
/// amount is paid in. `reward_info` is the stored position.
pub fn decrease_bond_amount(
    pool_info: PoolInfo,
    reward_info: RewardInfo,
    is_position_migrated: bool,
    amount: u128,
    is_short: bool,
) -> (r: Result<DecreaseOutcome, StakingError>)
    requires
        decrease_fits(pool_info, reward_info, is_position_migrated, amount, is_short),
    ensures
        decrease_effect(r) == decrease_result(
            pool_info,
            reward_info,
            is_position_migrated,
            amount,
            is_short,
        ),
        r matches Ok(o) ==> o.staking_token@ == unbond_token(
            pool_info,
            is_position_migrated,
            is_short,
        ),
{
    let mut reward_info = reward_info;
    if reward_info.bond_amount < amount {
        return Err(StakingError::UnbondExceedsBond);
    }
    let should_migrate = !is_position_migrated && !is_short && pool_info.migration_params.is_some();
    let (index, staking_token) = if is_short {
        (pool_info.short_reward_index, pool_info.staking_token.clone())
    } else if should_migrate {
        match &pool_info.migration_params {
            Some(params) => (params.index_snapshot, params.deprecated_staking_token.clone()),
            None => (pool_info.reward_index, pool_info.staking_token.clone()),
        }
    } else {
        (pool_info.reward_index, pool_info.staking_token.clone())
    };
    proof {
        assert(staking_token@ =~= unbond_token(pool_info, is_position_migrated, is_short));
    }
    before_share_change(index, &mut reward_info)?;
    let mut pool_info = pool_info;
    if is_short {
        pool_info.total_short_amount = checked_sub(pool_info.total_short_amount, amount)?;
    } else if !should_migrate {
        pool_info.total_bond_amount = checked_sub(pool_info.total_bond_amount, amount)?;
    }
    reward_info.bond_amount = reward_info.bond_amount - amount;
    let mark_migrated = reward_info.bond_amount == 0 && should_migrate;
    let reward_update = if reward_info.pending_reward == 0 && reward_info.bond_amount == 0 {
        RewardUpdate::Remove
    } else {
        RewardUpdate::Save(reward_info)
    };
    Ok(DecreaseOutcome { pool_info, reward_update, mark_migrated, staking_token })
}

} // verus!
