//! What a refused staking request is answered.
use vstd::prelude::*;

verus! {

/// Why a staking operation was refused.
#[derive(Clone, Debug, PartialEq, Eq)]
pub enum StakingError {
    /// The sender may not perform the operation.
    Unauthorized,
    /// The pool's LP token was replaced while the position still holds the old one.
    DeprecatedLpToken,
    /// More was asked to be unbonded than the position holds.
    UnbondExceedsBond,
    /// An automatic stake named no native asset.
    MissingNativeAsset,
    /// An automatic stake named no token asset.
    MissingTokenAsset,
    /// The pair's liquidity token is not the pool's staking token.
    InvalidStakingToken,
    /// The native amount named differs from the funds sent with the message.
    NativeBalanceMismatch,
    /// An address was refused by the chain's address validation, with its message.
    InvalidAddress { message: String },
    /// `minuend - subtrahend` would go below zero.
    SubtractionOverflow { minuend: u128, subtrahend: u128 },
}

impl StakingError {
    /// The text with which a generic refusal is reported; `None` for an
    /// arithmetic overflow, which is reported with its two operands instead.
    pub fn message(&self) -> (m: Option<String>)
        ensures
            match *self {
                StakingError::Unauthorized => m matches Some(s) && s@ == "unauthorized"@,
                StakingError::DeprecatedLpToken => m matches Some(s) && s@
                    == "The LP token for this asset has been deprecated, withdraw all your deprecated tokens to migrate your position"@,
                StakingError::UnbondExceedsBond => m matches Some(s) && s@
                    == "Cannot unbond more than bond amount"@,
                StakingError::MissingNativeAsset => m matches Some(s) && s@ == "Missing native asset"@,
                StakingError::MissingTokenAsset => m matches Some(s) && s@ == "Missing token asset"@,
                StakingError::InvalidStakingToken => m matches Some(s) && s@ == "Invalid staking token"@,
                StakingError::NativeBalanceMismatch => m matches Some(s) && s@
                    == "Native token balance mismatch between the argument and the transferred"@,
                StakingError::InvalidAddress { message } => m matches Some(s) && s@ == message@,
                StakingError::SubtractionOverflow { .. } => m is None,
            },
    {
        match self {
            StakingError::Unauthorized => Some("unauthorized".to_owned()),
            StakingError::DeprecatedLpToken => Some(
                "The LP token for this asset has been deprecated, withdraw all your deprecated tokens to migrate your position".to_owned(),
            ),
            StakingError::UnbondExceedsBond => Some("Cannot unbond more than bond amount".to_owned()),
            StakingError::MissingNativeAsset => Some("Missing native asset".to_owned()),
            StakingError::MissingTokenAsset => Some("Missing token asset".to_owned()),
            StakingError::InvalidStakingToken => Some("Invalid staking token".to_owned()),
            StakingError::NativeBalanceMismatch => Some(
                "Native token balance mismatch between the argument and the transferred".to_owned(),
            ),
            StakingError::InvalidAddress { message } => Some(message.clone()),
            StakingError::SubtractionOverflow { .. } => None,
        }
    }
}

/// `a - b`, or the overflow error that subtraction of amounts reports.
pub fn checked_sub(a: u128, b: u128) -> (r: Result<u128, StakingError>)
    ensures
        b <= a ==> r == Ok::<u128, StakingError>((a - b) as u128),
        b > a ==> r == Err::<u128, StakingError>(
            StakingError::SubtractionOverflow { minuend: a, subtrahend: b },
        ),
{
    if b <= a {
        Ok(a - b)
    } else {
        Err(StakingError::SubtractionOverflow { minuend: a, subtrahend: b })
    }
}

} // verus!
