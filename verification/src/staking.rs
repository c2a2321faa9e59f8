//! The staking operations: what each request changes and what it answers.
use vstd::prelude::*;
use crate::bonding::{
    decrease_bond_amount, decrease_effect, decrease_fits, decrease_result, increase_bond_amount,
    increase_fits, increase_result, stored_or_empty, unbond_token, DecreaseOutcome, IncreaseOutcome,
};
use crate::error::{checked_sub, StakingError};
use crate::math::{decimal_digits, uint128_to_string};
use crate::state::{bytes_eq, PoolInfo, RewardInfo};

verus! {

/// A key and value reported with a response.
#[derive(Clone, Debug, PartialEq, Eq)]
pub struct Attribute {
    pub key: String,
    pub value: String,
}

/// An attribute as the pair of its texts.
pub open spec fn attribute_view(a: Attribute) -> (Seq<char>, Seq<char>) {
    (a.key@, a.value@)
}

/// A list of attributes as the pairs of their texts.
pub open spec fn attributes_view(attrs: Seq<Attribute>) -> Seq<(Seq<char>, Seq<char>)> {
    attrs.map_values(|a: Attribute| attribute_view(a))
}

/// The outcome of an operation that also answers attributes, without them.
pub open spec fn outcome_of<T>(r: Result<(T, Vec<Attribute>), StakingError>) -> Result<T, StakingError> {
    match r {
        Ok((o, _)) => Ok(o),
        Err(e) => Err(e),
    }
}

/// The attribute `key = value`.
pub fn attr(key: &str, value: String) -> (a: Attribute)
    ensures
        a.key@ == key@,
        a.value@ == value@,
{
    Attribute { key: key.to_owned(), value }
}

/// The attributes of a bond-like response: the action, the staker, the asset
/// token and the amount.
pub open spec fn position_attributes(
    action: Seq<char>,
    staker_addr: Seq<char>,
    asset_token: Seq<char>,
    amount: u128,
) -> Seq<(Seq<char>, Seq<char>)> {
    seq![
        ("action"@, action),
        ("staker_addr"@, staker_addr),
        ("asset_token"@, asset_token),
        ("amount"@, decimal_digits(amount as nat)),
    ]
}

/// Builds the attributes of a bond-like response.
fn position_response(action: &str, staker_addr: &str, asset_token: &str, amount: u128) -> (v: Vec<
    Attribute,
>)
    ensures
        attributes_view(v@) == position_attributes(action@, staker_addr@, asset_token@, amount),
{
    let mut v: Vec<Attribute> = Vec::new();
    v.push(attr("action", action.to_owned()));
    v.push(attr("staker_addr", staker_addr.to_owned()));
    v.push(attr("asset_token", asset_token.to_owned()));
    v.push(attr("amount", uint128_to_string(amount)));
    assert(attributes_view(v@) =~= position_attributes(action@, staker_addr@, asset_token@, amount));
    v
}

/// Bonds `amount` of LP token for `staker_addr` in the pool of `asset_token`.
/// `pool_info`, `reward_info` and `is_position_migrated` are the stored pool,
/// position (`None` when there is none) and migration mark. Answers what to
/// write back and the response's attributes; refused as `increase_bond_amount`
/// refuses a long position.
pub fn bond(
    staker_addr: &str,
    asset_token: &str,
    amount: u128,
    pool_info: PoolInfo,
    reward_info: Option<RewardInfo>,
    is_position_migrated: bool,
) -> (r: Result<(IncreaseOutcome, Vec<Attribute>), StakingError>)
    requires
        increase_fits(pool_info, stored_or_empty(reward_info), is_position_migrated, amount, false),
    ensures
        r matches Ok((o, attrs)) ==> attributes_view(attrs@) == position_attributes(
            "bond"@,
            staker_addr@,
            asset_token@,
            amount,
        ),
        outcome_of(r) == increase_result(pool_info, reward_info, is_position_migrated, amount, false),
{
    let outcome = increase_bond_amount(pool_info, reward_info, is_position_migrated, amount, false)?;
    let attrs = position_response("bond", staker_addr, asset_token, amount);
    Ok((outcome, attrs))
}

/// A transfer of `amount` of the token at `contract_addr` to `recipient`.
#[derive(Clone, Debug, PartialEq, Eq)]
pub struct TokenTransfer {
    pub contract_addr: String,
    pub recipient: String,
    pub amount: u128,
}

/// Unbonds `amount` of LP token for a staker from the pool of an asset token.
/// `pool_info`, `reward_info` and `is_position_migrated` are the stored pool,
/// position and migration mark. Answers what to write back and the canonical
/// address of the LP token paid out; refused as `decrease_bond_amount` refuses a
/// long position.
pub fn unbond(
    amount: u128,
    pool_info: PoolInfo,
    reward_info: RewardInfo,
    is_position_migrated: bool,
) -> (r: Result<DecreaseOutcome, StakingError>)
    requires
        decrease_fits(pool_info, reward_info, is_position_migrated, amount, false),
    ensures
        decrease_effect(r) == decrease_result(
            pool_info,
            reward_info,
            is_position_migrated,
            amount,
            false,
        ),
        r matches Ok(o) ==> o.staking_token@ == unbond_token(pool_info, is_position_migrated, false),
{
    decrease_bond_amount(pool_info, reward_info, is_position_migrated, amount, false)
}

/// The attributes of an unbond response.
pub open spec fn unbond_attributes(
    staker_addr: Seq<char>,
    asset_token: Seq<char>,
    amount: u128,
    staking_token: Seq<char>,
) -> Seq<(Seq<char>, Seq<char>)> {
    position_attributes("unbond"@, staker_addr, asset_token, amount).push(
        ("staking_token"@, staking_token),
    )
}

/// What an unbond answers once the LP token's address is known: the transfer
/// of the unbonded LP tokens back to the staker, and the attributes.
pub fn unbond_response(
    staker_addr: &str,
    asset_token: &str,
    amount: u128,
    staking_token: &str,
) -> (r: (TokenTransfer, Vec<Attribute>))
    ensures
        r.0.contract_addr@ == staking_token@,
        r.0.recipient@ == staker_addr@,
        r.0.amount == amount,
        attributes_view(r.1@) == unbond_attributes(staker_addr@, asset_token@, amount, staking_token@),
{
    let transfer = TokenTransfer {
        contract_addr: staking_token.to_owned(),
        recipient: staker_addr.to_owned(),
        amount,
    };
    let mut attrs = position_response("unbond", staker_addr, asset_token, amount);
    attrs.push(attr("staking_token", staking_token.to_owned()));
    assert(attributes_view(attrs@) =~= unbond_attributes(
        staker_addr@,
        asset_token@,
        amount,
        staking_token@,
    ));
    (transfer, attrs)
}

/// Only the mint contract may change short positions: refuses a sender whose
/// canonical address is not the configured mint contract's.
pub fn authorize_mint(sender: &Vec<u8>, mint_contract: &Vec<u8>) -> (r: Result<(), StakingError>)
    ensures
        sender@ == mint_contract@ ==> r is Ok,
        sender@ != mint_contract@ ==> r == Err::<(), StakingError>(StakingError::Unauthorized),
{
    if bytes_eq(sender, mint_contract) {
        Ok(())
    } else {
        Err(StakingError::Unauthorized)
    }
}

/// Adds `amount` to a staker's short position in the pool of an asset token.
/// Only the mint contract may: `sender` is the canonical address of the
/// requester and `mint_contract` the configured one. Answers what to write back
/// and the response's attributes.
pub fn increase_short_token(
    sender: &Vec<u8>,
    mint_contract: &Vec<u8>,
    staker_addr: &str,
    asset_token: &str,
    amount: u128,
    pool_info: PoolInfo,
    reward_info: Option<RewardInfo>,
    is_position_migrated: bool,
) -> (r: Result<(IncreaseOutcome, Vec<Attribute>), StakingError>)
    requires
        sender@ == mint_contract@ ==> increase_fits(
            pool_info,
            stored_or_empty(reward_info),
            is_position_migrated,
            amount,
            true,
        ),
    ensures
        sender@ != mint_contract@ ==> r == Err::<(IncreaseOutcome, Vec<Attribute>), StakingError>(
            StakingError::Unauthorized,
        ),
        sender@ == mint_contract@ ==> {
            &&& r matches Ok((o, attrs)) ==> attributes_view(attrs@) == position_attributes(
                "increase_short_token"@,
                staker_addr@,
                asset_token@,
                amount,
            )
            &&& outcome_of(r) == increase_result(
                pool_info,
                reward_info,
                is_position_migrated,
                amount,
                true,
            )
        },
{
    authorize_mint(sender, mint_contract)?;
    let outcome = increase_bond_amount(pool_info, reward_info, is_position_migrated, amount, true)?;
    let attrs = position_response("increase_short_token", staker_addr, asset_token, amount);
    Ok((outcome, attrs))
}

/// Takes `amount` off a staker's short position in the pool of an asset token.
/// Only the mint contract may: `sender` is the canonical address of the
/// requester and `mint_contract` the configured one. Answers what to write back
/// and the response's attributes.
pub fn decrease_short_token(
    sender: &Vec<u8>,
    mint_contract: &Vec<u8>,
    staker_addr: &str,
    asset_token: &str,
    amount: u128,
    pool_info: PoolInfo,
    reward_info: RewardInfo,
    is_position_migrated: bool,
) -> (r: Result<(DecreaseOutcome, Vec<Attribute>), StakingError>)
    requires
        sender@ == mint_contract@ ==> decrease_fits(
            pool_info,
            reward_info,
            is_position_migrated,
            amount,
            true,
        ),
    ensures
        sender@ != mint_contract@ ==> r == Err::<(DecreaseOutcome, Vec<Attribute>), StakingError>(
            StakingError::Unauthorized,
        ),
        sender@ == mint_contract@ ==> {
            &&& r matches Ok((o, attrs)) ==> attributes_view(attrs@) == position_attributes(
                "decrease_short_token"@,
                staker_addr@,
                asset_token@,
                amount,
            ) && o.staking_token@ == unbond_token(pool_info, is_position_migrated, true)
            &&& decrease_effect(outcome_of(r)) == decrease_result(
                pool_info,
                reward_info,
                is_position_migrated,
                amount,
                true,
            )
        },
{
    authorize_mint(sender, mint_contract)?;
    let outcome = decrease_bond_amount(pool_info, reward_info, is_position_migrated, amount, true)?;
    let attrs = position_response("decrease_short_token", staker_addr, asset_token, amount);
    Ok((outcome, attrs))
}

/// Only the contract itself may run the hook that stakes freshly minted LP
/// tokens: refuses any other sender.
pub fn authorize_self_call(sender: &str, contract_addr: &str) -> (r: Result<(), StakingError>)
    ensures
        sender@ == contract_addr@ ==> r is Ok,
        sender@ != contract_addr@ ==> r == Err::<(), StakingError>(StakingError::Unauthorized),
{
    if str_eq(sender, contract_addr) {
        Ok(())
    } else {
        Err(StakingError::Unauthorized)
    }
}

/// The LP tokens a liquidity provision minted: the contract's balance now less
/// its balance before.
pub fn amount_to_stake(current_balance: u128, prev_balance: u128) -> (r: Result<u128, StakingError>)
    ensures
        prev_balance <= current_balance ==> r == Ok::<u128, StakingError>(
            (current_balance - prev_balance) as u128,
        ),
        prev_balance > current_balance ==> r == Err::<u128, StakingError>(
            StakingError::SubtractionOverflow { minuend: current_balance, subtrahend: prev_balance },
        ),
{
    checked_sub(current_balance, prev_balance)
}

/// Whether two texts are equal.
pub fn str_eq(a: &str, b: &str) -> (r: bool)
    ensures
        r == (a@ == b@),
{
    let a = a.to_owned();
    let b = b.to_owned();
    a == b
}

/// The hook that stakes the LP tokens an automatic stake minted: only the
/// contract itself (`contract_addr`) may run it, and it bonds for `staker_addr`
/// exactly what the contract's LP balance grew by, from `prev_balance` to
/// `current_balance`, as `bond` does. `pool_info`, `reward_info` and
/// `is_position_migrated` are the staker's stored pool, position and mark.
pub fn auto_stake_hook(
    sender: &str,
    contract_addr: &str,
    current_balance: u128,
    prev_balance: u128,
    staker_addr: &str,
    asset_token: &str,
    pool_info: PoolInfo,
    reward_info: Option<RewardInfo>,
    is_position_migrated: bool,
) -> (r: Result<(IncreaseOutcome, Vec<Attribute>), StakingError>)
    requires
        sender@ == contract_addr@ && prev_balance <= current_balance ==> increase_fits(
            pool_info,
            stored_or_empty(reward_info),
            is_position_migrated,
            (current_balance - prev_balance) as u128,
            false,
        ),
    ensures
        sender@ != contract_addr@ ==> r == Err::<(IncreaseOutcome, Vec<Attribute>), StakingError>(
            StakingError::Unauthorized,
        ),
        sender@ == contract_addr@ && prev_balance > current_balance ==> r == Err::<
            (IncreaseOutcome, Vec<Attribute>),
            StakingError,
        >(StakingError::SubtractionOverflow { minuend: current_balance, subtrahend: prev_balance }),
        sender@ == contract_addr@ && prev_balance <= current_balance ==> {
            let amount = (current_balance - prev_balance) as u128;
            &&& r matches Ok((o, attrs)) ==> attributes_view(attrs@) == position_attributes(
                "bond"@,
                staker_addr@,
                asset_token@,
                amount,
            )
            &&& outcome_of(r) == increase_result(
                pool_info,
                reward_info,
                is_position_migrated,
                amount,
                false,
            )
        },
{
    authorize_self_call(sender, contract_addr)?;
    let amount = amount_to_stake(current_balance, prev_balance)?;
    bond(staker_addr, asset_token, amount, pool_info, reward_info, is_position_migrated)
}

} // verus!
