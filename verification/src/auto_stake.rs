//! Providing liquidity for a staker and staking the LP tokens it mints.
use vstd::prelude::*;
use crate::asset::{
    asset_info_text, assert_sent_native_token_balance, sent_balance_matches, Asset, AssetInfo, Coin,
};
use crate::error::{checked_sub, StakingError};
use crate::math::{decimal_digits, uint128_to_string, Decimal};
use crate::staking::{attr, attribute_view, attributes_view, Attribute};
use crate::state::bytes_eq;

verus! {

/// What the chain's address validation said of an asset's contract address.
#[derive(Clone, Debug, PartialEq, Eq)]
pub enum TokenAddress {
    /// The asset is native: it has no contract address.
    NotToken,
    /// The address is valid, as normalized by the validation.
    Valid(String),
    /// The address was refused, with the validation's message.
    Invalid(String),
}

/// An asset as the texts and numbers it is made of.
pub open spec fn asset_view(a: Asset) -> (bool, Seq<char>, u128) {
    (a.info is NativeToken, asset_info_text(a.info), a.amount)
}

/// A copy of an asset.
pub fn copy_asset(a: &Asset) -> (b: Asset)
    ensures
        asset_view(b) == asset_view(*a),
{
    let info = match &a.info {
        AssetInfo::Token { contract_addr } => AssetInfo::Token { contract_addr: contract_addr.clone() },
        AssetInfo::NativeToken { denom } => AssetInfo::NativeToken { denom: denom.clone() },
    };
    Asset { info, amount: a.amount }
}

/// The refusal, if any, that checking one asset of an automatic stake gives:
/// a native asset must match the funds sent, a token's address must be valid.
pub open spec fn asset_check(asset: Asset, address: TokenAddress, funds: Seq<Coin>) -> Option<
    StakingError,
> {
    match asset.info {
        AssetInfo::NativeToken { .. } => if sent_balance_matches(asset, funds) {
            None
        } else {
            Some(StakingError::NativeBalanceMismatch)
        },
        AssetInfo::Token { .. } => match address {
            TokenAddress::Invalid(message) => Some(StakingError::InvalidAddress { message }),
            _ => None,
        },
    }
}

/// The address validation was asked of exactly the token assets.
pub open spec fn addresses_match_assets(assets: [Asset; 2], addresses: [TokenAddress; 2]) -> bool {
    forall|i: int|
        0 <= i < 2 ==> ((#[trigger] assets@[i]).info is Token <==> !(addresses@[i] is NotToken))
}

/// The index of the native asset an automatic stake provides: the last one.
pub open spec fn native_index(assets: [Asset; 2]) -> Option<int> {
    if assets@[1].info is NativeToken {
        Some(1)
    } else if assets@[0].info is NativeToken {
        Some(0)
    } else {
        None
    }
}

/// The index of the token asset an automatic stake provides: the last one.
pub open spec fn token_index(assets: [Asset; 2]) -> Option<int> {
    if assets@[1].info is Token {
        Some(1)
    } else if assets@[0].info is Token {
        Some(0)
    } else {
        None
    }
}

/// The native and the token asset of an automatic stake.
#[derive(Clone, Debug, PartialEq, Eq)]
pub struct AutoStakeAssets {
    pub native_asset: Asset,
    /// The token's validated contract address.
    pub token_addr: String,
    pub token_amount: u128,
}

/// The refusal, if any, of the assets of an automatic stake: the first asset's
/// check, then the second's, then a missing native asset, then a missing token.
pub open spec fn select_error(
    assets: [Asset; 2],
    addresses: [TokenAddress; 2],
    funds: Seq<Coin>,
) -> Option<StakingError> {
    if asset_check(assets@[0], addresses@[0], funds) is Some {
        asset_check(assets@[0], addresses@[0], funds)
    } else if asset_check(assets@[1], addresses@[1], funds) is Some {
        asset_check(assets@[1], addresses@[1], funds)
    } else if native_index(assets) is None {
        Some(StakingError::MissingNativeAsset)
    } else if token_index(assets) is None {
        Some(StakingError::MissingTokenAsset)
    } else {
        None
    }
}

/// Checks the two assets of an automatic stake and picks its native and token
/// asset. `funds` were sent with the request; `addresses` says, for each asset,
/// what address validation made of a token's contract address.
pub fn select_auto_stake_assets(
    assets: &[Asset; 2],
    funds: &Vec<Coin>,
    addresses: &[TokenAddress; 2],
) -> (r: Result<AutoStakeAssets, StakingError>)
    requires
        addresses_match_assets(*assets, *addresses),
    ensures
        select_error(*assets, *addresses, funds@) matches Some(e) ==> r == Err::<
            AutoStakeAssets,
            StakingError,
        >(e),
        select_error(*assets, *addresses, funds@) is None ==> (r matches Ok(o) && asset_view(
            o.native_asset,
        ) == asset_view(assets@[native_index(*assets)->Some_0]) && o.token_addr@
            == (addresses@[token_index(*assets)->Some_0])->Valid_0@ && o.token_amount
            == assets@[token_index(*assets)->Some_0].amount),
{
    let mut native: Option<usize> = None;
    let mut token: Option<usize> = None;
    let mut i: usize = 0;
    while i < 2
        invariant
            i <= 2,
            addresses_match_assets(*assets, *addresses),
            forall|j: int| 0 <= j < i ==> asset_check(assets@[j], addresses@[j], funds@) is None,
            native == (if i >= 2 && assets@[1].info is NativeToken {
                Some(1usize)
            } else if i >= 1 && assets@[0].info is NativeToken {
                Some(0usize)
            } else {
                None::<usize>
            }),
            token == (if i >= 2 && assets@[1].info is Token {
                Some(1usize)
            } else if i >= 1 && assets@[0].info is Token {
                Some(0usize)
            } else {
                None::<usize>
            }),
        decreases 2 - i,
    {
        let asset = &assets[i];
        match &asset.info {
            AssetInfo::NativeToken { .. } => {
                assert_sent_native_token_balance(asset, funds)?;
                native = Some(i);
            },
            AssetInfo::Token { .. } => {
                match &addresses[i] {
                    TokenAddress::Invalid(message) => {
                        return Err(StakingError::InvalidAddress { message: message.clone() });
                    },
                    _ => {},
                }
                token = Some(i);
            },
        }
        i = i + 1;
    }
    let native_at = match native {
        Some(n) => n,
        None => {
            return Err(StakingError::MissingNativeAsset);
        },
    };
    let token_at = match token {
        Some(t) => t,
        None => {
            return Err(StakingError::MissingTokenAsset);
        },
    };
    let token_addr = match &addresses[token_at] {
        TokenAddress::Valid(addr) => addr.clone(),
        _ => {
            assert(false);
            String::new()
        },
    };
    Ok(
        AutoStakeAssets {
            native_asset: copy_asset(&assets[native_at]),
            token_addr,
            token_amount: assets[token_at].amount,
        },
    )
}

/// Refuses a pair whose liquidity token is not the pool's staking token.
pub fn check_staking_token(pool_staking_token: &Vec<u8>, liquidity_token: &Vec<u8>) -> (r: Result<
    (),
    StakingError,
>)
    ensures
        pool_staking_token@ == liquidity_token@ ==> r is Ok,
        pool_staking_token@ != liquidity_token@ ==> r == Err::<(), StakingError>(
            StakingError::InvalidStakingToken,
        ),
{
    if bytes_eq(pool_staking_token, liquidity_token) {
        Ok(())
    } else {
        Err(StakingError::InvalidStakingToken)
    }
}

/// Moves `amount` of the token at `token_contract` from `owner` to `recipient`.
#[derive(Clone, Debug, PartialEq, Eq)]
pub struct TransferFrom {
    pub token_contract: String,
    pub owner: String,
    pub recipient: String,
    pub amount: u128,
}

/// Lets `spender` move `amount` more of the token at `token_contract`.
#[derive(Clone, Debug, PartialEq, Eq)]
pub struct IncreaseAllowance {
    pub token_contract: String,
    pub spender: String,
    pub amount: u128,
}

/// Provides the native and the token asset as liquidity to a pair, sending the
/// native amount along as `funds`.
#[derive(Clone, Debug, PartialEq, Eq)]
pub struct ProvideLiquidity {
    pub pair_contract: String,
    pub native_asset: Asset,
    pub token_addr: String,
    pub token_amount: u128,
    pub slippage_tolerance: Option<Decimal>,
    pub funds: Coin,
}

/// Asks the staking contract itself to stake what the provision minted.
#[derive(Clone, Debug, PartialEq, Eq)]
pub struct AutoStakeHook {
    pub contract_addr: String,
    pub asset_token: String,
    pub staking_token: String,
    pub staker_addr: String,
    pub prev_staking_token_amount: u128,
}

/// The messages an automatic stake sends, in order, and its attributes.
#[derive(Clone, Debug, PartialEq, Eq)]
pub struct AutoStakePlan {
    pub transfer_from: TransferFrom,
    pub increase_allowance: IncreaseAllowance,
    pub provide_liquidity: ProvideLiquidity,
    pub stake_hook: AutoStakeHook,
    pub attributes: Vec<Attribute>,
}

/// The attributes of an automatic stake.
pub open spec fn auto_stake_attributes(token_addr: Seq<char>, tax_amount: u128) -> Seq<
    (Seq<char>, Seq<char>),
> {
    seq![
        ("action"@, "auto_stake"@),
        ("asset_token"@, token_addr),
        ("tax_amount"@, decimal_digits(tax_amount as nat)),
    ]
}

/// Plans an automatic stake for `sender`: take the token from the sender, let
/// the pair spend it, provide it with the native asset less `tax_amount` as
/// liquidity, then stake the LP tokens minted beyond
/// `prev_staking_token_amount`. Refused when the tax exceeds the native amount.
pub fn auto_stake_plan(
    sender: &str,
    contract_addr: &str,
    selected: &AutoStakeAssets,
    tax_amount: u128,
    pair_contract: &str,
    liquidity_token: &str,
    prev_staking_token_amount: u128,
    slippage_tolerance: Option<Decimal>,
) -> (r: Result<AutoStakePlan, StakingError>)
    ensures
        selected.native_asset.amount < tax_amount ==> r == Err::<AutoStakePlan, StakingError>(
            StakingError::SubtractionOverflow {
                minuend: selected.native_asset.amount,
                subtrahend: tax_amount,
            },
        ),
        tax_amount <= selected.native_asset.amount ==> (r matches Ok(p) && {
            let provided = (selected.native_asset.amount - tax_amount) as u128;
            &&& p.transfer_from.token_contract@ == selected.token_addr@
            &&& p.transfer_from.owner@ == sender@
            &&& p.transfer_from.recipient@ == contract_addr@
            &&& p.transfer_from.amount == selected.token_amount
            &&& p.increase_allowance.token_contract@ == selected.token_addr@
            &&& p.increase_allowance.spender@ == pair_contract@
            &&& p.increase_allowance.amount == selected.token_amount
            &&& p.provide_liquidity.pair_contract@ == pair_contract@
            &&& asset_view(p.provide_liquidity.native_asset) == (
                selected.native_asset.info is NativeToken,
                asset_info_text(selected.native_asset.info),
                provided,
            )
            &&& p.provide_liquidity.token_addr@ == selected.token_addr@
            &&& p.provide_liquidity.token_amount == selected.token_amount
            &&& p.provide_liquidity.slippage_tolerance == slippage_tolerance
            &&& p.provide_liquidity.funds.denom@ == asset_info_text(selected.native_asset.info)
            &&& p.provide_liquidity.funds.amount == provided
            &&& p.stake_hook.contract_addr@ == contract_addr@
            &&& p.stake_hook.asset_token@ == selected.token_addr@
            &&& p.stake_hook.staking_token@ == liquidity_token@
            &&& p.stake_hook.staker_addr@ == sender@
            &&& p.stake_hook.prev_staking_token_amount == prev_staking_token_amount
            &&& attributes_view(p.attributes@) == auto_stake_attributes(
                selected.token_addr@,
                tax_amount,
            )
        }),
{
    let provided = checked_sub(selected.native_asset.amount, tax_amount)?;
    let transfer_from = TransferFrom {
        token_contract: selected.token_addr.clone(),
        owner: sender.to_owned(),
        recipient: contract_addr.to_owned(),
        amount: selected.token_amount,
    };
    let increase_allowance = IncreaseAllowance {
        token_contract: selected.token_addr.clone(),
        spender: pair_contract.to_owned(),
        amount: selected.token_amount,
    };
    let mut native_asset = copy_asset(&selected.native_asset);
    native_asset.amount = provided;
    let funds = Coin { denom: selected.native_asset.info.to_text(), amount: provided };
    let provide_liquidity = ProvideLiquidity {
        pair_contract: pair_contract.to_owned(),
        native_asset,
        token_addr: selected.token_addr.clone(),
        token_amount: selected.token_amount,
        slippage_tolerance,
        funds,
    };
    let stake_hook = AutoStakeHook {
        contract_addr: contract_addr.to_owned(),
        asset_token: selected.token_addr.clone(),
        staking_token: liquidity_token.to_owned(),
        staker_addr: sender.to_owned(),
        prev_staking_token_amount,
    };
    let mut attributes: Vec<Attribute> = Vec::new();
    attributes.push(attr("action", "auto_stake".to_owned()));
    attributes.push(attr("asset_token", selected.token_addr.clone()));
    attributes.push(attr("tax_amount", uint128_to_string(tax_amount)));
    assert(attributes_view(attributes@) =~= auto_stake_attributes(selected.token_addr@, tax_amount));
    Ok(AutoStakePlan { transfer_from, increase_allowance, provide_liquidity, stake_hook, attributes })
}

} // verus!
