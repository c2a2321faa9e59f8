//! Properties that hold across the staking operations.
use vstd::prelude::*;
use crate::bonding::{
    bond_blocked, decrease_fits, decrease_result, increase_fits, increase_result,
    pool_after_decrease, reduces_total, reward_after_decrease, reward_update_for, should_migrate,
    stored_or_empty, unbond_index, unbond_token, IncreaseOutcome, RewardUpdate,
};
use crate::error::StakingError;
use crate::math::{mul_floor, Decimal};
use crate::rewards::{reward_accrued, settle_fits, settle_underflows, settled};
use crate::state::{
    MigrationParams, empty_reward_info, pool_index, pool_total, with_pool_total, PoolInfo, RewardInfo,
};

verus! {

/// Settling a position twice at the same pool index is the same as settling it
/// once: the second settlement finds nothing earned.
pub proof fn settling_is_idempotent(info: RewardInfo, index: Decimal)
    requires
        settle_fits(info, index),
        !settle_underflows(info, index),
    ensures
        !settle_underflows(settled(info, index), index),
        reward_accrued(settled(info, index), index) == 0,
        settled(settled(info, index), index) == settled(info, index),
{
}

/// Settling keeps the bonded amount, moves the index to the pool's, and never
/// lowers the pending reward.
pub proof fn settling_never_lowers_pending(info: RewardInfo, index: Decimal)
    requires
        settle_fits(info, index),
        !settle_underflows(info, index),
    ensures
        settled(info, index).bond_amount == info.bond_amount,
        settled(info, index).index == index,
        settled(info, index).pending_reward >= info.pending_reward,
{
}

/// Bonding moves the pool's total on the bonded side by exactly the amount the
/// position grows by, and leaves the other side's total alone.
pub proof fn bonding_moves_total_with_position(
    pool: PoolInfo,
    reward_info: Option<RewardInfo>,
    is_position_migrated: bool,
    amount: u128,
    is_short: bool,
)
    requires
        increase_fits(pool, stored_or_empty(reward_info), is_position_migrated, amount, is_short),
    ensures
        increase_result(pool, reward_info, is_position_migrated, amount, is_short) matches Ok(o) ==> {
            &&& pool_total(o.pool_info, is_short) == pool_total(pool, is_short) + amount
            &&& o.reward_info.bond_amount == stored_or_empty(reward_info).bond_amount + amount
            &&& pool_total(o.pool_info, !is_short) == pool_total(pool, !is_short)
            &&& o.reward_info.pending_reward >= stored_or_empty(reward_info).pending_reward
        },
{
}

/// Unbonding never takes more than the position holds; when it takes the amount
/// off the pool's total, the total falls by exactly what the position loses,
/// and the other side's total is left alone.
pub proof fn unbonding_moves_total_with_position(
    pool: PoolInfo,
    reward: RewardInfo,
    is_position_migrated: bool,
    amount: u128,
    is_short: bool,
)
    requires
        decrease_fits(pool, reward, is_position_migrated, amount, is_short),
    ensures
        decrease_result(pool, reward, is_position_migrated, amount, is_short) matches Ok(
            (new_pool, update, mark),
        ) ==> {
            &&& amount <= reward.bond_amount
            &&& reduces_total(pool, is_position_migrated, is_short) ==> pool_total(new_pool, is_short)
                == pool_total(pool, is_short) - amount
            &&& !reduces_total(pool, is_position_migrated, is_short) ==> new_pool == pool
            &&& pool_total(new_pool, !is_short) == pool_total(pool, !is_short)
            &&& match update {
                RewardUpdate::Save(r) => r.bond_amount == reward.bond_amount - amount
                    && r.pending_reward >= reward.pending_reward,
                RewardUpdate::Remove => reward.bond_amount == amount,
            }
        },
{
}

/// Unbonding, at the same pool index, what was just bonded gives back the pool
/// and the bonded amount as they were, with the reward settled once.
pub proof fn unbond_after_bond_restores(
    pool: PoolInfo,
    reward_info: Option<RewardInfo>,
    is_position_migrated: bool,
    amount: u128,
    is_short: bool,
)
    requires
        increase_fits(pool, stored_or_empty(reward_info), is_position_migrated, amount, is_short),
        increase_result(pool, reward_info, is_position_migrated, amount, is_short) is Ok,
        mul_floor(
            stored_or_empty(reward_info).bond_amount + amount,
            pool_index(pool, is_short),
        ) <= u128::MAX,
    ensures
        ({
            let o = increase_result(pool, reward_info, is_position_migrated, amount, is_short)->Ok_0;
            let migrated = is_position_migrated || o.mark_migrated;
            let reward = stored_or_empty(reward_info);
            let after = settled(reward, pool_index(pool, is_short));
            &&& decrease_fits(o.pool_info, o.reward_info, migrated, amount, is_short)
            &&& decrease_result(o.pool_info, o.reward_info, migrated, amount, is_short) == Ok::<
                (PoolInfo, RewardUpdate, bool),
                StakingError,
            >((pool, reward_update_for(after), false))
        }),
{
    let o = increase_result(pool, reward_info, is_position_migrated, amount, is_short)->Ok_0;
    let reward = stored_or_empty(reward_info);
    let index = pool_index(pool, is_short);
    let migrated = is_position_migrated || o.mark_migrated;
    assert(unbond_index(o.pool_info, migrated, is_short) == index);
    assert(reward_accrued(o.reward_info, index) == 0);
    assert(reward_after_decrease(o.reward_info, index, amount) == settled(reward, index));
    assert(pool_after_decrease(o.pool_info, migrated, amount, is_short) == pool);
}

/// A position in a migrated pool that is withdrawn in full is recorded as
/// migrated, and from then on bonding into the pool is no longer refused for it.
pub proof fn full_withdrawal_unblocks_bonding(
    pool: PoolInfo,
    reward: RewardInfo,
    later: RewardInfo,
)
    requires
        should_migrate(pool, false, false),
        decrease_fits(pool, reward, false, reward.bond_amount, false),
        decrease_result(pool, reward, false, reward.bond_amount, false) is Ok,
    ensures
        decrease_result(pool, reward, false, reward.bond_amount, false) matches Ok((p, u, mark)) && mark
            && !bond_blocked(p, later, mark, false),
{
}

/// The sum of the amounts a list of positions holds.
pub open spec fn sum_bonds(positions: Seq<RewardInfo>) -> int
    decreases positions.len(),
{
    if positions.len() == 0 {
        0
    } else {
        sum_bonds(positions.drop_last()) + positions.last().bond_amount
    }
}

/// Replacing one position changes the sum by the difference of their amounts.
pub proof fn lemma_sum_bonds_update(positions: Seq<RewardInfo>, i: int, r: RewardInfo)
    requires
        0 <= i < positions.len(),
    ensures
        sum_bonds(positions.update(i, r)) == sum_bonds(positions) - positions[i].bond_amount
            + r.bond_amount,
    decreases positions.len(),
{
    if i == positions.len() - 1 {
        assert(positions.update(i, r).drop_last() =~= positions.drop_last());
    } else {
        lemma_sum_bonds_update(positions.drop_last(), i, r);
        assert(positions.update(i, r).drop_last() =~= positions.drop_last().update(i, r));
    }
}

/// The positions after one of them is written back as `update` says: a deleted
/// record holds nothing.
pub open spec fn apply_update(positions: Seq<RewardInfo>, i: int, update: RewardUpdate) -> Seq<
    RewardInfo,
> {
    match update {
        RewardUpdate::Save(r) => positions.update(i, r),
        RewardUpdate::Remove => positions.update(i, empty_reward_info()),
    }
}

/// When a pool's total on one side is the sum of the positions on that side,
/// bonding more into one of them keeps it so.
pub proof fn bonding_keeps_total_as_sum_of_positions(
    pool: PoolInfo,
    positions: Seq<RewardInfo>,
    i: int,
    is_position_migrated: bool,
    amount: u128,
    is_short: bool,
)
    requires
        0 <= i < positions.len(),
        pool_total(pool, is_short) == sum_bonds(positions),
        increase_fits(pool, positions[i], is_position_migrated, amount, is_short),
    ensures
        increase_result(pool, Some(positions[i]), is_position_migrated, amount, is_short) matches Ok(
            o,
        ) ==> pool_total(o.pool_info, is_short) == sum_bonds(positions.update(i, o.reward_info)),
{
    if let Ok(o) = increase_result(pool, Some(positions[i]), is_position_migrated, amount, is_short) {
        lemma_sum_bonds_update(positions, i, o.reward_info);
    }
}

/// When a pool's total on one side is the sum of the positions on that side,
/// a first bond by a new staker keeps it so.
pub proof fn first_bond_keeps_total_as_sum_of_positions(
    pool: PoolInfo,
    positions: Seq<RewardInfo>,
    is_position_migrated: bool,
    amount: u128,
    is_short: bool,
)
    requires
        pool_total(pool, is_short) == sum_bonds(positions),
        increase_fits(pool, empty_reward_info(), is_position_migrated, amount, is_short),
    ensures
        increase_result(pool, None, is_position_migrated, amount, is_short) matches Ok(o)
            ==> pool_total(o.pool_info, is_short) == sum_bonds(positions.push(o.reward_info)),
{
    if let Ok(o) = increase_result(pool, None, is_position_migrated, amount, is_short) {
        assert(positions.push(o.reward_info).drop_last() =~= positions);
    }
}

/// When a pool's total on one side is the sum of the positions on that side,
/// unbonding from one of them keeps it so, unless the position is paid out in a
/// deprecated LP token, whose holdings the pool's total no longer counts.
pub proof fn unbonding_keeps_total_as_sum_of_positions(
    pool: PoolInfo,
    positions: Seq<RewardInfo>,
    i: int,
    is_position_migrated: bool,
    amount: u128,
    is_short: bool,
)
    requires
        0 <= i < positions.len(),
        pool_total(pool, is_short) == sum_bonds(positions),
        reduces_total(pool, is_position_migrated, is_short),
        decrease_fits(pool, positions[i], is_position_migrated, amount, is_short),
    ensures
        decrease_result(pool, positions[i], is_position_migrated, amount, is_short) matches Ok(
            (new_pool, update, mark),
        ) ==> pool_total(new_pool, is_short) == sum_bonds(apply_update(positions, i, update)),
{
    if let Ok((new_pool, update, mark)) = decrease_result(
        pool,
        positions[i],
        is_position_migrated,
        amount,
        is_short,
    ) {
        match update {
            RewardUpdate::Save(r) => lemma_sum_bonds_update(positions, i, r),
            RewardUpdate::Remove => lemma_sum_bonds_update(positions, i, empty_reward_info()),
        }
    }
}

/// Bonding changes nothing of the pool but the total on the bonded side: every
/// other field, the other side's total included, stays as it was.
pub proof fn bonding_changes_only_bonded_total(
    pool: PoolInfo,
    reward_info: Option<RewardInfo>,
    is_position_migrated: bool,
    amount: u128,
    is_short: bool,
)
    requires
        increase_fits(pool, stored_or_empty(reward_info), is_position_migrated, amount, is_short),
    ensures
        increase_result(pool, reward_info, is_position_migrated, amount, is_short) matches Ok(o)
            ==> o.pool_info == with_pool_total(pool, is_short, pool_total(o.pool_info, is_short)),
{
}

/// Unbonding changes nothing of the pool but the total on the unbonded side:
/// every other field, the other side's total included, stays as it was.
pub proof fn unbonding_changes_only_unbonded_total(
    pool: PoolInfo,
    reward: RewardInfo,
    is_position_migrated: bool,
    amount: u128,
    is_short: bool,
)
    requires
        decrease_fits(pool, reward, is_position_migrated, amount, is_short),
    ensures
        decrease_result(pool, reward, is_position_migrated, amount, is_short) matches Ok(
            (new_pool, update, mark),
        ) ==> new_pool == with_pool_total(pool, is_short, pool_total(new_pool, is_short)),
{
    if let Ok((new_pool, update, mark)) = decrease_result(
        pool,
        reward,
        is_position_migrated,
        amount,
        is_short,
    ) {
        if !reduces_total(pool, is_position_migrated, is_short) {
            assert(with_pool_total(pool, is_short, pool_total(pool, is_short)) == pool);
        }
    }
}

/// The index a position is settled at when it unbonds, written out: the short
/// index for short positions, the snapshot for a long position of a migrated
/// pool not yet marked migrated, the pool's index otherwise.
pub open spec fn unbond_settle_index(pool: PoolInfo, is_position_migrated: bool, is_short: bool) -> Decimal {
    if is_short {
        pool.short_reward_index
    } else if !is_position_migrated && pool.migration_params is Some {
        pool.migration_params->Some_0.index_snapshot
    } else {
        pool.reward_index
    }
}

/// Bonding keeps every reward earned: the position ends with the reward it had
/// pending plus what it earned from its index up to the pool's index on its
/// side, settled at that index, holding `amount` more.
pub proof fn bonding_keeps_all_reward(
    pool: PoolInfo,
    reward_info: Option<RewardInfo>,
    is_position_migrated: bool,
    amount: u128,
    is_short: bool,
)
    requires
        increase_fits(pool, stored_or_empty(reward_info), is_position_migrated, amount, is_short),
    ensures
        increase_result(pool, reward_info, is_position_migrated, amount, is_short) matches Ok(o) ==> {
            let r = stored_or_empty(reward_info);
            let index = if is_short { pool.short_reward_index } else { pool.reward_index };
            &&& o.reward_info.index == index
            &&& o.reward_info.bond_amount == r.bond_amount + amount
            &&& o.reward_info.pending_reward == r.pending_reward + mul_floor(
                r.bond_amount as int,
                index,
            ) - mul_floor(r.bond_amount as int, r.index)
        },
{
}

/// Unbonding keeps every reward earned: a record that stays holds the reward it
/// had pending plus what it earned up to the index it is settled at, and a
/// record is deleted only when that sum is zero and nothing stays bonded.
pub proof fn unbonding_keeps_all_reward(
    pool: PoolInfo,
    reward: RewardInfo,
    is_position_migrated: bool,
    amount: u128,
    is_short: bool,
)
    requires
        decrease_fits(pool, reward, is_position_migrated, amount, is_short),
    ensures
        decrease_result(pool, reward, is_position_migrated, amount, is_short) matches Ok(
            (new_pool, update, mark),
        ) ==> {
            let index = unbond_settle_index(pool, is_position_migrated, is_short);
            let earned = mul_floor(reward.bond_amount as int, index) - mul_floor(
                reward.bond_amount as int,
                reward.index,
            );
            match update {
                RewardUpdate::Save(r) => r.pending_reward == reward.pending_reward + earned
                    && r.bond_amount == reward.bond_amount - amount && r.index == index,
                RewardUpdate::Remove => reward.pending_reward + earned == 0 && reward.bond_amount
                    == amount,
            }
        },
{
}

/// An unbond marks a position as migrated exactly when it empties a long
/// position, not yet marked, of a migrated pool: a partial withdrawal leaves
/// the deprecated LP tokens still to be withdrawn.
pub proof fn unbond_marks_migrated_only_when_emptied(
    pool: PoolInfo,
    reward: RewardInfo,
    is_position_migrated: bool,
    amount: u128,
    is_short: bool,
)
    requires
        decrease_fits(pool, reward, is_position_migrated, amount, is_short),
    ensures
        decrease_result(pool, reward, is_position_migrated, amount, is_short) matches Ok(
            (new_pool, update, mark),
        ) ==> (mark <==> (reward.bond_amount == amount && !is_short && !is_position_migrated
            && pool.migration_params is Some)),
{
}

/// Bonding is refused as deprecated exactly when a long position, not marked
/// migrated, still has LP tokens bonded in a migrated pool; its pending reward
/// plays no part. A bond that goes through marks the position migrated exactly
/// when it is long, not yet marked, in a migrated pool.
pub proof fn bond_refused_as_deprecated_only_with_bonded_tokens(
    pool: PoolInfo,
    reward_info: Option<RewardInfo>,
    is_position_migrated: bool,
    amount: u128,
    is_short: bool,
)
    requires
        increase_fits(pool, stored_or_empty(reward_info), is_position_migrated, amount, is_short),
    ensures
        (increase_result(pool, reward_info, is_position_migrated, amount, is_short) == Err::<
            IncreaseOutcome,
            StakingError,
        >(StakingError::DeprecatedLpToken)) <==> (!is_short && pool.migration_params is Some
            && !is_position_migrated && stored_or_empty(reward_info).bond_amount != 0),
        increase_result(pool, reward_info, is_position_migrated, amount, is_short) matches Ok(o)
            ==> (o.mark_migrated <==> (!is_short && pool.migration_params is Some
            && !is_position_migrated)),
{
}

/// Short positions ignore LP-token migration: bonding short is never refused
/// as deprecated and never marks a position migrated, unbonding short pays the
/// pool's staking token and never marks a position migrated, and neither
/// depends on the pool's migration parameters or on the position's mark.
pub proof fn short_positions_ignore_migration(
    pool: PoolInfo,
    reward_info: Option<RewardInfo>,
    is_position_migrated: bool,
    other_params: Option<MigrationParams>,
    other_mark: bool,
    amount: u128,
)
    requires
        increase_fits(pool, stored_or_empty(reward_info), is_position_migrated, amount, true),
        decrease_fits(pool, stored_or_empty(reward_info), is_position_migrated, amount, true),
    ensures
        ({
            let other = PoolInfo { migration_params: other_params, ..pool };
            let r1 = increase_result(pool, reward_info, is_position_migrated, amount, true);
            let r2 = increase_result(other, reward_info, other_mark, amount, true);
            &&& r1 != Err::<IncreaseOutcome, StakingError>(StakingError::DeprecatedLpToken)
            &&& r1 matches Ok(o) ==> !o.mark_migrated
            &&& (r1 is Ok <==> r2 is Ok)
            &&& r1 is Err ==> r1 == r2
            &&& r1 matches Ok(o1) ==> (r2 matches Ok(o2) && o1.reward_info == o2.reward_info
                && o1.mark_migrated == o2.mark_migrated && o1.pool_info == PoolInfo {
                migration_params: pool.migration_params,
                ..o2.pool_info
            })
        }),
        ({
            let other = PoolInfo { migration_params: other_params, ..pool };
            let reward = stored_or_empty(reward_info);
            let d1 = decrease_result(pool, reward, is_position_migrated, amount, true);
            let d2 = decrease_result(other, reward, other_mark, amount, true);
            &&& d1 matches Ok((p, u, mark)) ==> !mark
            &&& unbond_token(pool, is_position_migrated, true) == pool.staking_token@
            &&& (d1 is Ok <==> d2 is Ok)
            &&& d1 is Err ==> d1 == d2
            &&& d1 matches Ok((p1, u1, m1)) ==> (d2 matches Ok((p2, u2, m2)) && u1 == u2 && m1
                == m2 && p1 == PoolInfo { migration_params: pool.migration_params, ..p2 })
        }),
{
}

/// Unbonding is refused for more than the position holds and only then; a long
/// position of a migrated pool, not yet marked, is paid in the deprecated LP
/// token and leaves the pool's total alone, while any other unbond is paid in
/// the pool's staking token and takes the amount off the total on its side.
pub proof fn unbond_pays_and_counts(
    pool: PoolInfo,
    reward: RewardInfo,
    is_position_migrated: bool,
    amount: u128,
    is_short: bool,
)
    requires
        decrease_fits(pool, reward, is_position_migrated, amount, is_short),
    ensures
        (decrease_result(pool, reward, is_position_migrated, amount, is_short) == Err::<
            (PoolInfo, RewardUpdate, bool),
            StakingError,
        >(StakingError::UnbondExceedsBond)) <==> reward.bond_amount < amount,
        ({
            let deprecated = !is_short && !is_position_migrated && pool.migration_params is Some;
            let total = if is_short { pool.total_short_amount } else { pool.total_bond_amount };
            &&& unbond_token(pool, is_position_migrated, is_short) == (if deprecated {
                pool.migration_params->Some_0.deprecated_staking_token@
            } else {
                pool.staking_token@
            })
            &&& decrease_result(pool, reward, is_position_migrated, amount, is_short) matches Ok(
                (p, u, m),
            ) ==> (if is_short { p.total_short_amount } else { p.total_bond_amount }) == (if deprecated {
                total as int
            } else {
                total - amount
            })
        }),
{
}

} // verus!
