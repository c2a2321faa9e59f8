use mirror_staking::asset::{assert_sent_native_token_balance, Asset, AssetInfo, Coin};
use mirror_staking::auto_stake::{
    auto_stake_plan, check_staking_token, select_auto_stake_assets, AutoStakeAssets, TokenAddress,
};
use mirror_staking::bonding::{decrease_would_fit, increase_would_fit, RewardUpdate};
use mirror_staking::error::StakingError;
use mirror_staking::math::{mul_floor_fits, uint128_to_string, Decimal};
use mirror_staking::staking::{
    amount_to_stake, authorize_mint, authorize_self_call, auto_stake_hook, bond, decrease_short_token,
    increase_short_token, unbond, unbond_response, Attribute,
};
use mirror_staking::state::{PoolInfo, RewardInfo};

const ONE: u128 = 1_000_000_000_000_000_000;

fn pool(total_bond: u128, total_short: u128, index: u128, short_index: u128) -> PoolInfo {
    PoolInfo {
        staking_token: b"lptoken".to_vec(),
        pending_reward: 0,
        short_pending_reward: 0,
        total_bond_amount: total_bond,
        total_short_amount: total_short,
        reward_index: Decimal { atomics: index },
        short_reward_index: Decimal { atomics: short_index },
        premium_rate: Decimal { atomics: 0 },
        short_reward_weight: Decimal { atomics: 0 },
        premium_updated_time: 0,
        migration_params: None,
    }
}

fn attrs(pairs: &[(&str, &str)]) -> Vec<Attribute> {
    pairs
        .iter()
        .map(|(k, v)| Attribute { key: k.to_string(), value: v.to_string() })
        .collect()
}

fn native(denom: &str, amount: u128) -> Asset {
    Asset { info: AssetInfo::NativeToken { denom: denom.to_string() }, amount }
}

fn token(addr: &str, amount: u128) -> Asset {
    Asset { info: AssetInfo::Token { contract_addr: addr.to_string() }, amount }
}

fn coin(denom: &str, amount: u128) -> Coin {
    Coin { denom: denom.to_string(), amount }
}

#[test]
fn amounts_print_in_decimal() {
    assert_eq!(uint128_to_string(0), "0");
    assert_eq!(uint128_to_string(100), "100");
    assert_eq!(uint128_to_string(u128::MAX), "340282366920938463463374607431768211455");
}

#[test]
fn product_bound_is_exact() {
    assert!(mul_floor_fits(u128::MAX, Decimal { atomics: ONE }));
    assert!(!mul_floor_fits(u128::MAX, Decimal { atomics: ONE + 1 }));
    assert!(mul_floor_fits(u128::MAX, Decimal { atomics: ONE - 1 }));
    assert!(mul_floor_fits(0, Decimal { atomics: u128::MAX }));
    assert!(!mul_floor_fits(2 * ONE, Decimal { atomics: u128::MAX }));
}

#[test]
fn overflowing_bond_is_flagged() {
    let p = pool(u128::MAX, 0, ONE, 0);
    assert!(!increase_would_fit(&p, &None, false, 1, false));
    assert!(increase_would_fit(&p, &None, false, 0, false));
    let r = Some(RewardInfo { index: Decimal { atomics: 0 }, bond_amount: u128::MAX, pending_reward: 0 });
    assert!(!increase_would_fit(&pool(0, 0, 2 * ONE, 0), &r, false, 0, false));
    let big = RewardInfo { index: Decimal { atomics: 0 }, bond_amount: u128::MAX, pending_reward: 0 };
    assert!(!decrease_would_fit(&pool(0, 0, 2 * ONE, 0), &big, false, 1, false));
    assert!(decrease_would_fit(&pool(0, 0, ONE, 0), &big, false, 1, false));
}

#[test]
fn bond_reports_attributes() {
    let (out, a) = bond("addr0000", "asset0000", 100, pool(0, 0, 0, 0), None, false).unwrap();
    assert_eq!(out.pool_info.total_bond_amount, 100);
    assert_eq!(
        a,
        attrs(&[("action", "bond"), ("staker_addr", "addr0000"), ("asset_token", "asset0000"), ("amount", "100")])
    );
}

#[test]
fn unbond_reports_transfer_and_attributes() {
    let reward = RewardInfo { index: Decimal { atomics: 0 }, bond_amount: 100, pending_reward: 0 };
    let out = unbond(100, pool(100, 0, 0, 0), reward, false).unwrap();
    assert_eq!(out.reward_update, RewardUpdate::Remove);
    assert_eq!(out.staking_token, b"lptoken".to_vec());
    let (transfer, a) = unbond_response("addr0000", "asset0000", 100, "staking0000");
    assert_eq!(transfer.contract_addr, "staking0000");
    assert_eq!(transfer.recipient, "addr0000");
    assert_eq!(transfer.amount, 100);
    assert_eq!(
        a,
        attrs(&[
            ("action", "unbond"),
            ("staker_addr", "addr0000"),
            ("asset_token", "asset0000"),
            ("amount", "100"),
            ("staking_token", "staking0000"),
        ])
    );
}

#[test]
fn only_mint_contract_changes_short_positions() {
    assert_eq!(authorize_mint(&b"mint".to_vec(), &b"mint".to_vec()), Ok(()));
    assert_eq!(authorize_mint(&b"addr".to_vec(), &b"mint".to_vec()), Err(StakingError::Unauthorized));
}

#[test]
fn short_token_round_trip() {
    let (inc, a) =
        increase_short_token(&b"mint".to_vec(), &b"mint".to_vec(), "addr0000", "asset0000", 40, pool(5, 0, ONE, ONE), None, false).unwrap();
    assert_eq!(inc.pool_info.total_short_amount, 40);
    assert_eq!(inc.pool_info.total_bond_amount, 5);
    assert!(!inc.mark_migrated);
    assert_eq!(a[0], Attribute { key: "action".to_string(), value: "increase_short_token".to_string() });
    let (dec, a) =
        decrease_short_token(&b"mint".to_vec(), &b"mint".to_vec(), "addr0000", "asset0000", 40, inc.pool_info, inc.reward_info, false)
            .unwrap();
    assert_eq!(dec.pool_info.total_short_amount, 0);
    assert_eq!(dec.reward_update, RewardUpdate::Remove);
    assert_eq!(a[0], Attribute { key: "action".to_string(), value: "decrease_short_token".to_string() });
    assert_eq!(a[3], Attribute { key: "amount".to_string(), value: "40".to_string() });
}

#[test]
fn hook_only_from_contract_itself() {
    assert_eq!(authorize_self_call("cosmos2contract", "cosmos2contract"), Ok(()));
    assert_eq!(authorize_self_call("addr0000", "cosmos2contract"), Err(StakingError::Unauthorized));
}

#[test]
fn hook_stakes_balance_increase() {
    assert_eq!(amount_to_stake(150, 100), Ok(50));
    assert_eq!(
        amount_to_stake(99, 100),
        Err(StakingError::SubtractionOverflow { minuend: 99, subtrahend: 100 })
    );
}

#[test]
fn native_balance_must_match_funds() {
    let funds = vec![coin("uluna", 3), coin("uusd", 100), coin("uusd", 7)];
    assert_eq!(assert_sent_native_token_balance(&native("uusd", 100), &funds), Ok(()));
    assert_eq!(
        assert_sent_native_token_balance(&native("uusd", 7), &funds),
        Err(StakingError::NativeBalanceMismatch)
    );
    assert_eq!(assert_sent_native_token_balance(&native("ukrw", 0), &funds), Ok(()));
    assert_eq!(
        assert_sent_native_token_balance(&native("ukrw", 1), &funds),
        Err(StakingError::NativeBalanceMismatch)
    );
    assert_eq!(assert_sent_native_token_balance(&token("asset", 5), &funds), Ok(()));
}

#[test]
fn auto_stake_picks_assets() {
    let assets = [native("uusd", 100), token("asset", 1)];
    let addrs = [TokenAddress::NotToken, TokenAddress::Valid("asset".to_string())];
    let sel = select_auto_stake_assets(&assets, &vec![coin("uusd", 100)], &addrs).unwrap();
    assert_eq!(
        sel,
        AutoStakeAssets { native_asset: native("uusd", 100), token_addr: "asset".to_string(), token_amount: 1 }
    );
}

#[test]
fn auto_stake_refusals_in_order() {
    let funds = vec![coin("uusd", 100)];
    let two_tokens = [token("a", 1), token("b", 2)];
    let addrs = [TokenAddress::Valid("a".to_string()), TokenAddress::Valid("b".to_string())];
    assert_eq!(select_auto_stake_assets(&two_tokens, &funds, &addrs), Err(StakingError::MissingNativeAsset));
    let two_natives = [native("uusd", 100), native("uusd", 100)];
    let none = [TokenAddress::NotToken, TokenAddress::NotToken];
    assert_eq!(select_auto_stake_assets(&two_natives, &funds, &none), Err(StakingError::MissingTokenAsset));
    let bad = [token("x", 1), native("uusd", 5)];
    let bad_addrs = [TokenAddress::Invalid("Invalid input".to_string()), TokenAddress::NotToken];
    assert_eq!(
        select_auto_stake_assets(&bad, &funds, &bad_addrs),
        Err(StakingError::InvalidAddress { message: "Invalid input".to_string() })
    );
    let mismatch = [native("uusd", 5), token("x", 1)];
    let mismatch_addrs = [TokenAddress::NotToken, TokenAddress::Invalid("Invalid input".to_string())];
    assert_eq!(
        select_auto_stake_assets(&mismatch, &funds, &mismatch_addrs),
        Err(StakingError::NativeBalanceMismatch)
    );
}

#[test]
fn staking_token_must_match_pair() {
    assert_eq!(check_staking_token(&b"lp".to_vec(), &b"lp".to_vec()), Ok(()));
    assert_eq!(check_staking_token(&b"lp".to_vec(), &b"other".to_vec()), Err(StakingError::InvalidStakingToken));
}

#[test]
fn auto_stake_provides_native_less_tax() {
    let sel = AutoStakeAssets { native_asset: native("uusd", 100), token_addr: "asset".to_string(), token_amount: 1 };
    let plan = auto_stake_plan(
        "addr0000",
        "cosmos2contract",
        &sel,
        1,
        "pair",
        "lptoken",
        7,
        Some(Decimal { atomics: ONE / 100 }),
    )
    .unwrap();
    assert_eq!(plan.transfer_from.token_contract, "asset");
    assert_eq!(plan.transfer_from.owner, "addr0000");
    assert_eq!(plan.transfer_from.recipient, "cosmos2contract");
    assert_eq!(plan.transfer_from.amount, 1);
    assert_eq!(plan.increase_allowance.spender, "pair");
    assert_eq!(plan.provide_liquidity.native_asset, native("uusd", 99));
    assert_eq!(plan.provide_liquidity.funds, coin("uusd", 99));
    assert_eq!(plan.provide_liquidity.token_amount, 1);
    assert_eq!(plan.provide_liquidity.slippage_tolerance, Some(Decimal { atomics: ONE / 100 }));
    assert_eq!(plan.stake_hook.staking_token, "lptoken");
    assert_eq!(plan.stake_hook.staker_addr, "addr0000");
    assert_eq!(plan.stake_hook.prev_staking_token_amount, 7);
    assert_eq!(
        plan.attributes,
        attrs(&[("action", "auto_stake"), ("asset_token", "asset"), ("tax_amount", "1")])
    );
    assert_eq!(
        auto_stake_plan("a", "c", &sel, 101, "p", "l", 0, None),
        Err(StakingError::SubtractionOverflow { minuend: 100, subtrahend: 101 })
    );
}

#[test]
fn refusal_messages() {
    assert_eq!(StakingError::Unauthorized.message(), Some("unauthorized".to_string()));
    assert_eq!(
        StakingError::DeprecatedLpToken.message(),
        Some("The LP token for this asset has been deprecated, withdraw all your deprecated tokens to migrate your position".to_string())
    );
    assert_eq!(StakingError::UnbondExceedsBond.message(), Some("Cannot unbond more than bond amount".to_string()));
    assert_eq!(StakingError::MissingNativeAsset.message(), Some("Missing native asset".to_string()));
    assert_eq!(StakingError::MissingTokenAsset.message(), Some("Missing token asset".to_string()));
    assert_eq!(StakingError::InvalidStakingToken.message(), Some("Invalid staking token".to_string()));
    assert_eq!(StakingError::SubtractionOverflow { minuend: 1, subtrahend: 2 }.message(), None);
}

#[test]
fn short_token_changes_refused_for_others() {
    let r = increase_short_token(&b"addr".to_vec(), &b"mint".to_vec(), "addr0000", "asset0000", 40, pool(5, 0, ONE, ONE), None, false);
    assert_eq!(r, Err(StakingError::Unauthorized));
    let reward = RewardInfo { index: Decimal { atomics: ONE }, bond_amount: 40, pending_reward: 0 };
    let r = decrease_short_token(&b"addr".to_vec(), &b"mint".to_vec(), "addr0000", "asset0000", 40, pool(0, 40, ONE, ONE), reward, false);
    assert_eq!(r, Err(StakingError::Unauthorized));
}

#[test]
fn hook_bonds_the_balance_increase() {
    let (out, a) = auto_stake_hook("contract", "contract", 150, 100, "addr0000", "asset0000", pool(10, 0, 0, 0), None, false).unwrap();
    assert_eq!(out.pool_info.total_bond_amount, 60);
    assert_eq!(out.reward_info.bond_amount, 50);
    assert_eq!(
        a,
        attrs(&[("action", "bond"), ("staker_addr", "addr0000"), ("asset_token", "asset0000"), ("amount", "50")])
    );
    assert_eq!(
        auto_stake_hook("addr0000", "contract", 150, 100, "addr0000", "asset0000", pool(10, 0, 0, 0), None, false),
        Err(StakingError::Unauthorized)
    );
    assert_eq!(
        auto_stake_hook("contract", "contract", 99, 100, "addr0000", "asset0000", pool(10, 0, 0, 0), None, false),
        Err(StakingError::SubtractionOverflow { minuend: 99, subtrahend: 100 })
    );
}
