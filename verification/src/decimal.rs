//! Fixed-point numbers with eighteen fractional digits.
//!
//! A [`Decimal`] stands for `atomics / 10^18`. Sums and differences are
//! computed here; products and quotients need a 256-bit intermediate and are
//! delegated to `cosmwasm_std::Decimal`.

use vstd::prelude::*;

verus! {

/// Number of atomic units in the value one.
pub const DECIMAL_FRACTIONAL: u128 = 1_000_000_000_000_000_000;

/// Atomic units of one percent.
pub const DECIMAL_PERCENT: u128 = 10_000_000_000_000_000;

/// A non-negative fixed-point number: `atomics` counts units of `10^-18`.
#[derive(Clone, Copy, Debug, PartialEq, Eq, Structural)]
pub struct Decimal {
    pub atomics: u128,
}

/// Why a quotient could not be formed.
#[derive(Clone, Copy, Debug, PartialEq, Eq, Structural)]
pub enum RatioError {
    DivideByZero,
    Overflow,
}

/// The product of two fixed-point numbers, rounded down, in atomic units.
pub open spec fn product_atomics(a: nat, b: nat) -> nat {
    a * b / (DECIMAL_FRACTIONAL as nat)
}

/// The quotient `numerator / denominator` as a fixed-point number, rounded
/// down, in atomic units.
pub open spec fn ratio_atomics(numerator: nat, denominator: nat) -> nat
    recommends
        denominator > 0,
{
    numerator * (DECIMAL_FRACTIONAL as nat) / denominator
}

/// What [`Decimal::checked_mul`] returns.
pub open spec fn checked_mul_spec(a: Decimal, b: Decimal) -> Option<Decimal> {
    let p = product_atomics(a.atomics as nat, b.atomics as nat);
    if p <= u128::MAX {
        Some(Decimal { atomics: p as u128 })
    } else {
        None
    }
}

/// What [`Decimal::checked_from_ratio`] returns.
pub open spec fn checked_ratio_spec(numerator: u128, denominator: u128) -> Result<Decimal, RatioError> {
    if denominator == 0 {
        Err(RatioError::DivideByZero)
    } else {
        let q = ratio_atomics(numerator as nat, denominator as nat);
        if q <= u128::MAX {
            Ok(Decimal { atomics: q as u128 })
        } else {
            Err(RatioError::Overflow)
        }
    }
}

/// Calls `cosmwasm_std::Decimal::checked_mul`. That function multiplies the
/// two atomic values in 256 bits, divides by `10^18` rounding down, and fails
/// exactly when the quotient does not fit in 128 bits.
#[verifier::external_body]
fn outside_checked_mul(a: Decimal, b: Decimal) -> (r: Option<Decimal>)
    ensures
        r == checked_mul_spec(a, b),
{
    match cosmwasm_std::Decimal::raw(a.atomics).checked_mul(cosmwasm_std::Decimal::raw(b.atomics)) {
        Ok(p) => Some(Decimal { atomics: p.atomics().u128() }),
        Err(_) => None,
    }
}

/// Calls `cosmwasm_std::Decimal::checked_from_ratio`. That function reports
/// a zero denominator; otherwise it multiplies the numerator by `10^18` in
/// 256 bits, divides by the denominator rounding down, and reports an
/// overflow exactly when the quotient does not fit in 128 bits.
#[verifier::external_body]
fn outside_checked_from_ratio(numerator: u128, denominator: u128) -> (r: Result<Decimal, RatioError>)
    ensures
        r == checked_ratio_spec(numerator, denominator),
{
    match cosmwasm_std::Decimal::checked_from_ratio(numerator, denominator) {
        Ok(q) => Ok(Decimal { atomics: q.atomics().u128() }),
        Err(cosmwasm_std::CheckedFromRatioError::DivideByZero) => Err(RatioError::DivideByZero),
        Err(cosmwasm_std::CheckedFromRatioError::Overflow) => Err(RatioError::Overflow),
    }
}

/// A product with a factor of at most one is at most the other factor.
pub proof fn product_at_most(a: nat, b: nat)
    requires
        b <= DECIMAL_FRACTIONAL,
    ensures
        product_atomics(a, b) <= a,
{
    let f = DECIMAL_FRACTIONAL as nat;
    assert(a * b <= a * f) by (nonlinear_arith)
        requires
            b <= f,
    ;
    assert(a * b / f <= a) by (nonlinear_arith)
        requires
            a * b <= a * f,
            f > 0,
    ;
}

/// A whole number times a fixed-point number: nothing is lost to rounding.
pub proof fn product_of_whole(n: nat, b: nat)
    ensures
        product_atomics(n * (DECIMAL_FRACTIONAL as nat), b) == n * b,
{
    let f = DECIMAL_FRACTIONAL as int;
    assert((n * f) * b == (n * b) * f) by (nonlinear_arith);
    vstd::arithmetic::div_mod::lemma_div_by_multiple((n * b) as int, f);
}

/// The quotient of two whole numbers, each written as a fixed-point number.
pub proof fn ratio_of_wholes(a: nat, b: nat)
    requires
        b > 0,
    ensures
        ratio_atomics(a * (DECIMAL_FRACTIONAL as nat), b * (DECIMAL_FRACTIONAL as nat)) == a * (
        DECIMAL_FRACTIONAL as nat) / b,
{
    let f = DECIMAL_FRACTIONAL as int;
    vstd::arithmetic::div_mod::lemma_div_multiples_vanish_quotient(f, a * f, b as int);
    assert((a * f) * f == f * (a * f)) by (nonlinear_arith);
    assert(b * f == f * b) by (nonlinear_arith);
}

/// A part of a whole is at most one.
pub proof fn ratio_at_most_one(n: nat, d: nat)
    requires
        n <= d,
        d > 0,
    ensures
        ratio_atomics(n, d) <= DECIMAL_FRACTIONAL,
{
    let f = DECIMAL_FRACTIONAL as int;
    assert(n * f <= d * f) by (nonlinear_arith)
        requires
            n <= d,
            f > 0,
    ;
    vstd::arithmetic::div_mod::lemma_div_is_ordered(n * f, d * f, d as int);
    assert(d * f == f * d) by (nonlinear_arith);
    vstd::arithmetic::div_mod::lemma_div_by_multiple(f, d as int);
}

impl View for Decimal {
    type V = nat;

    open spec fn view(&self) -> nat {
        self.atomics as nat
    }
}

impl Decimal {
    /// The value zero.
    pub fn zero() -> (r: Decimal)
        ensures
            r.atomics == 0,
    {
        Decimal { atomics: 0 }
    }

    /// The value one.
    pub fn one() -> (r: Decimal)
        ensures
            r.atomics == DECIMAL_FRACTIONAL,
    {
        Decimal { atomics: DECIMAL_FRACTIONAL }
    }

    /// The value with the given number of atomic units.
    pub fn raw(atomics: u128) -> (r: Decimal)
        ensures
            r.atomics == atomics,
    {
        Decimal { atomics }
    }

    /// `x` percent.
    pub fn percent(x: u64) -> (r: Decimal)
        ensures
            r.atomics == x * DECIMAL_PERCENT,
    {
        assert(x * DECIMAL_PERCENT <= u64::MAX * DECIMAL_PERCENT) by (nonlinear_arith);
        let wide: u128 = x as u128;
        Decimal { atomics: wide * DECIMAL_PERCENT }
    }

    pub fn is_zero(&self) -> (r: bool)
        ensures
            r == (self.atomics == 0),
    {
        self.atomics == 0
    }

    /// The sum, or `None` when it exceeds the largest representable value.
    pub fn checked_add(self, other: Decimal) -> (r: Option<Decimal>)
        ensures
            r == (if self.atomics + other.atomics <= u128::MAX {
                Some(Decimal { atomics: (self.atomics + other.atomics) as u128 })
            } else {
                None::<Decimal>
            }),
    {
        match self.atomics.checked_add(other.atomics) {
            Some(sum) => Some(Decimal { atomics: sum }),
            None => None,
        }
    }

    /// The difference, or `None` when `other` is the larger.
    pub fn checked_sub(self, other: Decimal) -> (r: Option<Decimal>)
        ensures
            r == (if other.atomics <= self.atomics {
                Some(Decimal { atomics: (self.atomics - other.atomics) as u128 })
            } else {
                None::<Decimal>
            }),
    {
        match self.atomics.checked_sub(other.atomics) {
            Some(difference) => Some(Decimal { atomics: difference }),
            None => None,
        }
    }

    /// The product rounded down to the eighteenth digit, or `None` when it
    /// exceeds the largest representable value.
    pub fn checked_mul(self, other: Decimal) -> (r: Option<Decimal>)
        ensures
            r == checked_mul_spec(self, other),
    {
        outside_checked_mul(self, other)
    }

    /// `numerator / denominator` rounded down to the eighteenth digit.
    pub fn checked_from_ratio(numerator: u128, denominator: u128) -> (r: Result<Decimal, RatioError>)
        ensures
            r == checked_ratio_spec(numerator, denominator),
    {
        outside_checked_from_ratio(numerator, denominator)
    }

    /// `self / other` rounded down to the eighteenth digit.
    pub fn checked_div(self, other: Decimal) -> (r: Result<Decimal, RatioError>)
        ensures
            r == checked_ratio_spec(self.atomics, other.atomics),
    {
        outside_checked_from_ratio(self.atomics, other.atomics)
    }

    /// The whole part.
    pub fn to_uint_floor(self) -> (r: u128)
        ensures
            r == self.atomics / DECIMAL_FRACTIONAL,
    {
        self.atomics / DECIMAL_FRACTIONAL
    }
}

} // verus!
