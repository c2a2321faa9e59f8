//! Fixed-point decimals with eighteen fractional digits and the unsigned
//! amount arithmetic the staking rules are written in.
use vstd::prelude::*;

verus! {

/// The denominator of a [`Decimal`]: a decimal `d` stands for `d.atomics / 10^18`.
pub const DECIMAL_FRACTIONAL: u128 = 1_000_000_000_000_000_000u128;

/// A non-negative fixed-point number held as its count of `10^-18` units.
#[derive(Clone, Copy, Debug, PartialEq, Eq)]
pub struct Decimal {
    pub atomics: u128,
}

/// `amount * d`, rounded down: the product of an amount and a decimal.
pub open spec fn mul_floor(amount: int, d: Decimal) -> int {
    amount * d.atomics / (DECIMAL_FRACTIONAL as int)
}

impl Decimal {
    /// The decimal `0`.
    pub fn zero() -> (d: Decimal)
        ensures
            d.atomics == 0,
    {
        Decimal { atomics: 0 }
    }

    /// The decimal whose value is `atomics / 10^18`.
    pub fn from_atomics(atomics: u128) -> (d: Decimal)
        ensures
            d.atomics == atomics,
    {
        Decimal { atomics }
    }
}

/// `amount * d` rounded down, as `cosmwasm_std` computes `Uint128 * Decimal`.
///
/// Builds the `cosmwasm_std::Decimal` with `d.atomics` as its numerator
/// (`from_ratio(atomics, 10^18)`, exact), then calls `Mul<Decimal> for Uint128`
/// of `cosmwasm_std`, which is
/// `amount.multiply_ratio(atomics, 10^18)` (and `0` when either side is zero):
/// the exact quotient `amount * atomics / 10^18` taken in 256 bits and rounded
/// down. It panics with "multiplication overflow" when that quotient does not fit
/// in 128 bits, which `requires` rules out.
#[verifier::external_body]
pub fn decimal_mul(amount: u128, d: Decimal) -> (r: u128)
    requires
        mul_floor(amount as int, d) <= u128::MAX,
    ensures
        r as int == mul_floor(amount as int, d),
{
    let unit = cosmwasm_std::Fraction::numerator(&cosmwasm_std::Decimal::one());
    let index = cosmwasm_std::Decimal::from_ratio(d.atomics, unit);
    (cosmwasm_std::Uint128::new(amount) * index).u128()
}

/// Splitting both factors at `10^18` splits the rounded-down product.
proof fn lemma_mul_floor_split(a: int, b: int, q: int, r: int, bq: int, br: int)
    by (nonlinear_arith)
    requires
        a == q * (DECIMAL_FRACTIONAL as int) + r,
        b == bq * (DECIMAL_FRACTIONAL as int) + br,
        0 <= q,
        0 <= r < DECIMAL_FRACTIONAL,
        0 <= bq,
        0 <= br < DECIMAL_FRACTIONAL,
    ensures
        a * b / (DECIMAL_FRACTIONAL as int) == q * b + r * bq + r * br / (DECIMAL_FRACTIONAL as int),
{
    let f = DECIMAL_FRACTIONAL as int;
    assert(a * b == f * (q * b + r * bq) + r * br);
    assert((f * (q * b + r * bq) + r * br) / f == (q * b + r * bq) + (r * br) / f);
}

/// Whether `amount * d`, rounded down, fits in 128 bits, so that
/// [`decimal_mul`] can be asked for it.
pub fn mul_floor_fits(amount: u128, d: Decimal) -> (b: bool)
    ensures
        b == (mul_floor(amount as int, d) <= u128::MAX),
{
    let q = amount / DECIMAL_FRACTIONAL;
    let r = amount % DECIMAL_FRACTIONAL;
    let bq = d.atomics / DECIMAL_FRACTIONAL;
    let br = d.atomics % DECIMAL_FRACTIONAL;
    proof {
        lemma_mul_floor_split(amount as int, d.atomics as int, q as int, r as int, bq as int, br as int);
        assert(r * br < DECIMAL_FRACTIONAL * DECIMAL_FRACTIONAL) by (nonlinear_arith)
            requires
                r < DECIMAL_FRACTIONAL,
                br < DECIMAL_FRACTIONAL,
        ;
        assert(0 <= q * d.atomics) by (nonlinear_arith);
        assert(0 <= r * bq) by (nonlinear_arith);
    }
    let t1 = match q.checked_mul(d.atomics) {
        Some(t) => t,
        None => {
            return false;
        },
    };
    let t2 = match r.checked_mul(bq) {
        Some(t) => t,
        None => {
            return false;
        },
    };
    let t3 = r * br / DECIMAL_FRACTIONAL;
    match t1.checked_add(t2) {
        Some(t12) => match t12.checked_add(t3) {
            Some(_) => true,
            None => false,
        },
        None => false,
    }
}

/// The character of a decimal digit `0..=9`.
pub open spec fn digit_char(d: nat) -> char {
    (d + 48) as char
}

/// The decimal digits of `n`, most significant first, with no leading zero.
pub open spec fn decimal_digits(n: nat) -> Seq<char>
    decreases n,
{
    if n < 10 {
        seq![digit_char(n)]
    } else {
        decimal_digits(n / 10).push(digit_char(n % 10))
    }
}

/// The decimal text of an amount, as `cosmwasm_std` prints a `Uint128`.
///
/// Calls `ToString` through `Display for Uint128`, which writes the inner `u128`
/// with std's `Display`: its decimal digits without sign or leading zeros.
#[verifier::external_body]
pub fn uint128_to_string(n: u128) -> (s: String)
    ensures
        s@ == decimal_digits(n as nat),
{
    cosmwasm_std::Uint128::new(n).to_string()
}

} // verus!
