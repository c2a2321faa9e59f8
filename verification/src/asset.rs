//! Assets, coins, and the check that a native asset was really sent.
use vstd::prelude::*;
use crate::error::StakingError;

verus! {

/// What an asset is: a token contract or a native denomination.
#[derive(Clone, Debug, PartialEq, Eq)]
pub enum AssetInfo {
    Token { contract_addr: String },
    NativeToken { denom: String },
}

/// An amount of an asset.
#[derive(Clone, Debug, PartialEq, Eq)]
pub struct Asset {
    pub info: AssetInfo,
    pub amount: u128,
}

/// An amount of a native denomination sent along with a message.
#[derive(Clone, Debug, PartialEq, Eq)]
pub struct Coin {
    pub denom: String,
    pub amount: u128,
}

/// The name an asset is shown by: its contract address or its denomination.
pub open spec fn asset_info_text(info: AssetInfo) -> Seq<char> {
    match info {
        AssetInfo::Token { contract_addr } => contract_addr@,
        AssetInfo::NativeToken { denom } => denom@,
    }
}

impl AssetInfo {
    /// The name an asset is shown by: its contract address or its denomination.
    pub fn to_text(&self) -> (s: String)
        ensures
            s@ == asset_info_text(*self),
    {
        match self {
            AssetInfo::Token { contract_addr } => contract_addr.clone(),
            AssetInfo::NativeToken { denom } => denom.clone(),
        }
    }

    /// Whether the asset is a native denomination.
    pub fn is_native_token(&self) -> (b: bool)
        ensures
            b == (*self is NativeToken),
    {
        match self {
            AssetInfo::Token { .. } => false,
            AssetInfo::NativeToken { .. } => true,
        }
    }
}

/// The amount of the first coin of denomination `denom` among `funds`.
pub open spec fn sent_amount(funds: Seq<Coin>, denom: Seq<char>) -> Option<u128>
    decreases funds.len(),
{
    if funds.len() == 0 {
        None
    } else if funds[0].denom@ == denom {
        Some(funds[0].amount)
    } else {
        sent_amount(funds.drop_first(), denom)
    }
}

/// Whether `i` is the position of the first coin of denomination `denom`.
pub open spec fn is_first_coin_of(funds: Seq<Coin>, denom: Seq<char>, i: int) -> bool {
    &&& 0 <= i < funds.len()
    &&& funds[i].denom@ == denom
    &&& forall|j: int| 0 <= j < i ==> (#[trigger] funds[j]).denom@ != denom
}

/// The amount sent in a denomination is that of its first coin, and there is
/// none exactly when no coin has that denomination.
pub proof fn sent_amount_is_first_coin(funds: Seq<Coin>, denom: Seq<char>)
    ensures
        sent_amount(funds, denom) matches Some(a) ==> exists|i: int|
            is_first_coin_of(funds, denom, i) && #[trigger] funds[i].amount == a,
        sent_amount(funds, denom) is None ==> forall|i: int|
            0 <= i < funds.len() ==> (#[trigger] funds[i]).denom@ != denom,
    decreases funds.len(),
{
    if funds.len() > 0 {
        sent_amount_is_first_coin(funds.drop_first(), denom);
        if funds[0].denom@ == denom {
            assert(is_first_coin_of(funds, denom, 0) && funds[0].amount == funds[0].amount);
        } else {
            if let Some(a) = sent_amount(funds, denom) {
                let k = choose|k: int| is_first_coin_of(funds.drop_first(), denom, k)
                    && #[trigger] funds.drop_first()[k].amount == a;
                assert forall|j: int| 0 <= j < k + 1 implies (#[trigger] funds[j]).denom@ != denom by {
                    if j > 0 {
                        assert(funds[j] == funds.drop_first()[j - 1]);
                    }
                }
                assert(funds[k + 1] == funds.drop_first()[k]);
                assert(is_first_coin_of(funds, denom, k + 1) && funds[k + 1].amount == a);
            } else {
                assert forall|i: int| 0 <= i < funds.len() implies (#[trigger] funds[i]).denom@
                    != denom by {
                    if i > 0 {
                        assert(funds[i] == funds.drop_first()[i - 1]);
                    }
                }
            }
        }
    }
}

/// A native asset matches what was sent when the first coin of its denomination
/// carries the same amount, or, with no such coin, when the amount is zero.
/// Token assets always match.
pub open spec fn sent_balance_matches(asset: Asset, funds: Seq<Coin>) -> bool {
    match asset.info {
        AssetInfo::NativeToken { denom } => match sent_amount(funds, denom@) {
            Some(a) => a == asset.amount,
            None => asset.amount == 0,
        },
        AssetInfo::Token { .. } => true,
    }
}

/// Refuses a native asset whose amount differs from the funds sent with it.
pub fn assert_sent_native_token_balance(asset: &Asset, funds: &Vec<Coin>) -> (r: Result<
    (),
    StakingError,
>)
    ensures
        sent_balance_matches(*asset, funds@) ==> r is Ok,
        !sent_balance_matches(*asset, funds@) ==> r == Err::<(), StakingError>(
            StakingError::NativeBalanceMismatch,
        ),
        r is Ok && asset.info is NativeToken ==> (exists|i: int|
            is_first_coin_of(funds@, asset_info_text(asset.info), i) && #[trigger] funds@[i].amount
                == asset.amount) || (asset.amount == 0 && forall|i: int|
            0 <= i < funds@.len() ==> (#[trigger] funds@[i]).denom@ != asset_info_text(asset.info)),
        r is Ok ==> forall|i: int|
            is_first_coin_of(funds@, asset_info_text(asset.info), i) && asset.info is NativeToken
                ==> #[trigger] funds@[i].amount == asset.amount,
{
    proof {
        sent_amount_is_first_coin(funds@, asset_info_text(asset.info));
    }
    match &asset.info {
        AssetInfo::Token { .. } => Ok(()),
        AssetInfo::NativeToken { denom } => {
            let mut i: usize = 0;
            assert(funds@.skip(0) =~= funds@);
            while i < funds.len()
                invariant
                    i <= funds.len(),
                    asset.info == (AssetInfo::NativeToken { denom: *denom }),
                    sent_amount(funds@, denom@) == sent_amount(funds@.skip(i as int), denom@),
                decreases funds.len() - i,
            {
                assert(funds@.skip(i as int).drop_first() =~= funds@.skip(i + 1));
                assert(funds@.skip(i as int)[0] == funds@[i as int]);
                proof {
                    sent_amount_is_first_coin(funds@, denom@);
                }
                if funds[i].denom == *denom {
                    if funds[i].amount == asset.amount {
                        return Ok(());
                    } else {
                        return Err(StakingError::NativeBalanceMismatch);
                    }
                }
                i = i + 1;
            }
            assert(funds@.skip(i as int).len() == 0);
            if asset.amount == 0 {
                Ok(())
            } else {
                Err(StakingError::NativeBalanceMismatch)
            }
        },
    }
}

} // verus!
