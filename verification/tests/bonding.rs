use mirror_staking::bonding::{
    decrease_bond_amount, increase_bond_amount, DecreaseOutcome, IncreaseOutcome, RewardUpdate,
};
use mirror_staking::error::StakingError;
use mirror_staking::math::{decimal_mul, Decimal};
use mirror_staking::rewards::before_share_change;
use mirror_staking::state::{MigrationParams, PoolInfo, RewardInfo};

const ONE: u128 = 1_000_000_000_000_000_000;

fn pool(total_bond: u128, total_short: u128, index: u128, short_index: u128) -> PoolInfo {
    PoolInfo {
        staking_token: b"lptoken".to_vec(),
        pending_reward: 0,
        short_pending_reward: 0,
        total_bond_amount: total_bond,
        total_short_amount: total_short,
        reward_index: Decimal { atomics: index },
        short_reward_index: Decimal { atomics: short_index },
        premium_rate: Decimal { atomics: 0 },
        short_reward_weight: Decimal { atomics: 0 },
        premium_updated_time: 0,
        migration_params: None,
    }
}

fn migrated_pool(total_bond: u128, index: u128, snapshot: u128) -> PoolInfo {
    let mut p = pool(total_bond, 0, index, 0);
    p.staking_token = b"newlp".to_vec();
    p.migration_params = Some(MigrationParams {
        index_snapshot: Decimal { atomics: snapshot },
        deprecated_staking_token: b"oldlp".to_vec(),
    });
    p
}

fn reward(index: u128, bond: u128, pending: u128) -> RewardInfo {
    RewardInfo { index: Decimal { atomics: index }, bond_amount: bond, pending_reward: pending }
}

#[test]
fn decimal_mul_rounds_down() {
    assert_eq!(decimal_mul(100, Decimal { atomics: 2 * ONE }), 200);
    assert_eq!(decimal_mul(3, Decimal { atomics: ONE / 2 }), 1);
    assert_eq!(decimal_mul(0, Decimal { atomics: ONE }), 0);
    assert_eq!(decimal_mul(7, Decimal { atomics: 0 }), 0);
    assert_eq!(decimal_mul(1_000_000, Decimal { atomics: 1 }), 0);
    assert_eq!(decimal_mul(u128::MAX, Decimal { atomics: ONE }), u128::MAX);
}

#[test]
fn share_change_moves_earned_reward_to_pending() {
    let mut r = reward(ONE, 100, 5);
    assert_eq!(before_share_change(Decimal { atomics: 3 * ONE / 2 }, &mut r), Ok(()));
    assert_eq!(r, reward(3 * ONE / 2, 100, 55));
}

#[test]
fn share_change_refuses_lower_index() {
    let mut r = reward(2 * ONE, 10, 1);
    assert_eq!(
        before_share_change(Decimal { atomics: ONE }, &mut r),
        Err(StakingError::SubtractionOverflow { minuend: 10, subtrahend: 20 })
    );
    assert_eq!(r, reward(2 * ONE, 10, 1));
}

#[test]
fn share_change_twice_is_once() {
    let mut r = reward(ONE, 40, 0);
    before_share_change(Decimal { atomics: 2 * ONE }, &mut r).unwrap();
    let once = r;
    before_share_change(Decimal { atomics: 2 * ONE }, &mut r).unwrap();
    assert_eq!(r, once);
    assert_eq!(r.pending_reward, 40);
}

#[test]
fn bond_new_position_settles_at_pool_index() {
    let out = increase_bond_amount(pool(1000, 7, 2 * ONE, 0), None, false, 50, false).unwrap();
    assert_eq!(out.pool_info.total_bond_amount, 1050);
    assert_eq!(out.pool_info.total_short_amount, 7);
    assert_eq!(out.reward_info, reward(2 * ONE, 50, 0));
    assert!(!out.mark_migrated);
}

#[test]
fn bond_existing_position_accrues_reward() {
    let out =
        increase_bond_amount(pool(1000, 7, 2 * ONE, 0), Some(reward(ONE, 100, 5)), false, 50, false)
            .unwrap();
    assert_eq!(
        out,
        IncreaseOutcome {
            pool_info: pool(1050, 7, 2 * ONE, 0),
            reward_info: reward(2 * ONE, 150, 105),
            mark_migrated: false,
        }
    );
}

#[test]
fn short_bond_changes_only_short_total() {
    let out = increase_bond_amount(pool(1000, 7, 2 * ONE, ONE), None, false, 3, true).unwrap();
    assert_eq!(out.pool_info.total_bond_amount, 1000);
    assert_eq!(out.pool_info.total_short_amount, 10);
    assert_eq!(out.reward_info, reward(ONE, 3, 0));
}

#[test]
fn bond_into_migrated_pool_refused_with_old_tokens() {
    let r = increase_bond_amount(migrated_pool(0, ONE, ONE), Some(reward(ONE, 5, 0)), false, 1, false);
    assert_eq!(r, Err(StakingError::DeprecatedLpToken));
}

#[test]
fn bond_into_migrated_pool_new_position_is_marked() {
    let out = increase_bond_amount(migrated_pool(0, ONE, ONE), None, false, 9, false).unwrap();
    assert!(out.mark_migrated);
    assert_eq!(out.pool_info.total_bond_amount, 9);
    let out2 =
        increase_bond_amount(migrated_pool(0, ONE, ONE), Some(reward(ONE, 5, 0)), true, 1, false)
            .unwrap();
    assert!(!out2.mark_migrated);
    assert_eq!(out2.reward_info.bond_amount, 6);
}

#[test]
fn bond_refused_when_index_would_go_back() {
    let r = increase_bond_amount(pool(0, 0, ONE, 0), Some(reward(2 * ONE, 10, 0)), false, 1, false);
    assert_eq!(r, Err(StakingError::SubtractionOverflow { minuend: 10, subtrahend: 20 }));
}

#[test]
fn unbond_more_than_bonded_refused() {
    let r = decrease_bond_amount(pool(1000, 0, ONE, 0), reward(ONE, 100, 0), false, 101, false);
    assert_eq!(r, Err(StakingError::UnbondExceedsBond));
}

#[test]
fn unbond_part_keeps_record() {
    let out = decrease_bond_amount(pool(1000, 0, 2 * ONE, 0), reward(ONE, 100, 0), false, 40, false)
        .unwrap();
    assert_eq!(
        out,
        DecreaseOutcome {
            pool_info: pool(960, 0, 2 * ONE, 0),
            reward_update: RewardUpdate::Save(reward(2 * ONE, 60, 100)),
            mark_migrated: false,
            staking_token: b"lptoken".to_vec(),
        }
    );
}

#[test]
fn unbond_all_with_nothing_pending_removes_record() {
    let out =
        decrease_bond_amount(pool(100, 0, ONE, 0), reward(ONE, 100, 0), false, 100, false).unwrap();
    assert_eq!(out.reward_update, RewardUpdate::Remove);
    assert_eq!(out.pool_info.total_bond_amount, 0);
}

#[test]
fn unbond_all_with_pending_keeps_record() {
    let out =
        decrease_bond_amount(pool(100, 0, ONE, 0), reward(ONE, 100, 3), false, 100, false).unwrap();
    assert_eq!(out.reward_update, RewardUpdate::Save(reward(ONE, 0, 3)));
}

#[test]
fn unbond_beyond_pool_total_refused() {
    let r = decrease_bond_amount(pool(10, 0, ONE, 0), reward(ONE, 100, 0), false, 50, false);
    assert_eq!(r, Err(StakingError::SubtractionOverflow { minuend: 10, subtrahend: 50 }));
    let r = decrease_bond_amount(pool(0, 4, ONE, ONE), reward(ONE, 100, 0), false, 5, true);
    assert_eq!(r, Err(StakingError::SubtractionOverflow { minuend: 4, subtrahend: 5 }));
}

#[test]
fn unbond_from_migrated_pool_pays_old_token_at_snapshot() {
    let out = decrease_bond_amount(
        migrated_pool(500, 5 * ONE, 2 * ONE),
        reward(ONE, 100, 0),
        false,
        100,
        false,
    )
    .unwrap();
    assert_eq!(out.staking_token, b"oldlp".to_vec());
    assert_eq!(out.pool_info.total_bond_amount, 500);
    assert_eq!(out.reward_update, RewardUpdate::Save(reward(2 * ONE, 0, 100)));
    assert!(out.mark_migrated);
    let later = increase_bond_amount(out.pool_info.clone(), None, true, 1, false).unwrap();
    assert_eq!(later.reward_info.bond_amount, 1);
}

#[test]
fn unbond_from_migrated_pool_after_migration_pays_new_token() {
    let out = decrease_bond_amount(
        migrated_pool(500, 5 * ONE, 2 * ONE),
        reward(5 * ONE, 100, 0),
        true,
        30,
        false,
    )
    .unwrap();
    assert_eq!(out.staking_token, b"newlp".to_vec());
    assert_eq!(out.pool_info.total_bond_amount, 470);
    assert!(!out.mark_migrated);
}

#[test]
fn unbond_after_bond_gives_back_pool() {
    let p = pool(1000, 7, 3 * ONE, 0);
    let inc = increase_bond_amount(p.clone(), Some(reward(ONE, 10, 2)), false, 25, false).unwrap();
    let dec =
        decrease_bond_amount(inc.pool_info, inc.reward_info, inc.mark_migrated, 25, false).unwrap();
    assert_eq!(dec.pool_info, p);
    assert_eq!(dec.reward_update, RewardUpdate::Save(reward(3 * ONE, 10, 22)));
}

#[test]
fn pool_total_stays_sum_of_positions() {
    let mut positions = vec![reward(ONE, 10, 0), reward(ONE, 20, 0)];
    let mut p = pool(30, 0, 2 * ONE, 0);

    let inc = increase_bond_amount(p, Some(positions[1]), false, 5, false).unwrap();
    positions[1] = inc.reward_info;
    p = inc.pool_info;
    assert_eq!(p.total_bond_amount, positions.iter().map(|r| r.bond_amount).sum::<u128>());

    let first = increase_bond_amount(p, None, false, 7, false).unwrap();
    positions.push(first.reward_info);
    p = first.pool_info;
    assert_eq!(p.total_bond_amount, positions.iter().map(|r| r.bond_amount).sum::<u128>());

    let dec = decrease_bond_amount(p, positions[0], false, 10, false).unwrap();
    positions[0] = match dec.reward_update {
        RewardUpdate::Save(r) => r,
        RewardUpdate::Remove => reward(0, 0, 0),
    };
    p = dec.pool_info;
    assert_eq!(p.total_bond_amount, 32);
    assert_eq!(p.total_bond_amount, positions.iter().map(|r| r.bond_amount).sum::<u128>());
}
