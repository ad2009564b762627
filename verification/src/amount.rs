//! Fixed-point amounts with eighteen decimal places.
//!
//! An [`Amount`] counts indivisible base units ("attos"); one whole unit is
//! `10^18` of them.  Prices, balances, royalty rates and fee rates are all
//! amounts: a rate of one (`10^18` attos) stands for 100%.
//!
//! Products and rounding are computed by `scrypto`'s `Decimal`, behind the two
//! trusted functions at the end of this file.

use scrypto::blueprints::resource::ForWithdrawal;
use scrypto::blueprints::resource::WithdrawStrategy;
use scrypto::math::CheckedMul;
use scrypto::math::Decimal;
use scrypto::math::RoundingMode;
use scrypto::math::I192;
use vstd::prelude::*;

verus! {

/// Number of attos in one whole unit, `10^18`.
pub open spec fn unit() -> nat {
    1_000_000_000_000_000_000
}

/// Largest number of decimal places an amount can carry.
pub open spec fn scale() -> nat {
    18
}

/// `10^n`.
pub open spec fn pow10(n: nat) -> nat
    decreases n,
{
    if n == 0 {
        1
    } else {
        10 * pow10((n - 1) as nat)
    }
}

/// The product of two fixed-point numbers given in attos, rounded toward zero
/// to a whole number of attos.
pub open spec fn mul_floor(a: nat, b: nat) -> nat {
    (a * b) / unit()
}

/// The size in attos of the smallest step of a currency that keeps
/// `decimal_places` digits after the point.  Eighteen places or more give a
/// step of one atto.
pub open spec fn granule(decimal_places: nat) -> nat {
    if decimal_places >= scale() {
        1
    } else {
        pow10((scale() - decimal_places) as nat)
    }
}

/// `a` rounded toward zero to `decimal_places` digits after the point.
pub open spec fn round_down(a: nat, decimal_places: nat) -> nat {
    (a - a % granule(decimal_places)) as nat
}

/// What a payment of `amount` owes at `rate`, in a currency that keeps
/// `decimal_places` digits: the product rounded toward zero, first to attos
/// and then to the currency's own precision.
pub open spec fn share(amount: nat, rate: nat, decimal_places: nat) -> nat {
    round_down(mul_floor(amount, rate), decimal_places)
}

/// Every power of ten is at least one.
pub proof fn lemma_pow10_positive(n: nat)
    ensures
        pow10(n) >= 1,
    decreases n,
{
    if n > 0 {
        lemma_pow10_positive((n - 1) as nat);
    }
}

/// Rounding down never increases a number and never makes it negative.
pub proof fn lemma_round_down_bounds(a: nat, decimal_places: nat)
    ensures
        round_down(a, decimal_places) <= a,
        a - a % granule(decimal_places) >= 0,
{
    let g = granule(decimal_places);
    if decimal_places < scale() {
        lemma_pow10_positive((scale() - decimal_places) as nat);
    }
    assert(0 <= a % g <= a) by (nonlinear_arith)
        requires
            g >= 1,
    ;
}

/// A rate of at most one takes no more than the whole amount.
pub proof fn lemma_mul_floor_bounded(a: nat, rate: nat)
    requires
        rate <= unit(),
    ensures
        mul_floor(a, rate) <= a,
{
    let u = unit();
    assert((a * rate) / u <= a) by (nonlinear_arith)
        requires
            rate <= u,
            u > 0,
    ;
}

/// A non-negative fixed-point number.
#[derive(Clone, Copy, Debug, PartialEq, Eq, Structural)]
pub struct Amount {
    /// The number of attos (`10^-18` of a whole unit).
    pub attos: u128,
}

impl View for Amount {
    type V = nat;

    open spec fn view(&self) -> nat {
        self.attos as nat
    }
}

impl Amount {
    /// The amount zero.
    pub fn zero() -> (r: Amount)
        ensures
            r@ == 0,
    {
        Amount { attos: 0 }
    }

    /// One whole unit; as a rate, 100%.
    pub fn one() -> (r: Amount)
        ensures
            r@ == unit(),
    {
        Amount { attos: 1_000_000_000_000_000_000 }
    }

    /// The amount made of `attos` base units.
    pub fn from_attos(attos: u128) -> (r: Amount)
        ensures
            r@ == attos,
    {
        Amount { attos }
    }

    /// The amount of `units` whole units.
    pub fn from_units(units: u64) -> (r: Amount)
        ensures
            r@ == units * unit(),
    {
        let wide: u128 = units as u128;
        assert(wide * 1_000_000_000_000_000_000 <= u128::MAX) by (nonlinear_arith)
            requires
                wide <= 0xffff_ffff_ffff_ffff,
        ;
        Amount { attos: wide * 1_000_000_000_000_000_000 }
    }

    /// `units` whole units and `fraction` attos on top of them, or `None` when
    /// `fraction` is a whole unit or more.
    pub fn from_parts(units: u64, fraction: u64) -> (r: Option<Amount>)
        ensures
            fraction < unit() ==> r == Some(Amount { attos: (units * unit() + fraction) as u128 }),
            fraction >= unit() ==> r is None,
            units * unit() + fraction <= u128::MAX,
    {
        let whole = Amount::from_units(units);
        assert(units * unit() + fraction <= u128::MAX) by (nonlinear_arith)
            requires
                units <= 0xffff_ffff_ffff_ffff,
                fraction <= 0xffff_ffff_ffff_ffff,
                unit() == 1_000_000_000_000_000_000,
        ;
        if fraction < 1_000_000_000_000_000_000 {
            let wide: u128 = fraction as u128;
            Some(Amount { attos: whole.attos + wide })
        } else {
            None
        }
    }

    /// The number of attos.
    pub fn attos(&self) -> (r: u128)
        ensures
            r == self@,
    {
        self.attos
    }

    pub fn is_zero(&self) -> (r: bool)
        ensures
            r == (self@ == 0),
    {
        self.attos == 0
    }

    pub fn is_positive(&self) -> (r: bool)
        ensures
            r == (self@ > 0),
    {
        self.attos > 0
    }

    /// The sum, or `None` when it does not fit.
    pub fn checked_add(self, other: Amount) -> (r: Option<Amount>)
        ensures
            self@ + other@ <= u128::MAX ==> r == Some(Amount { attos: (self@ + other@) as u128 }),
            self@ + other@ > u128::MAX ==> r is None,
    {
        if other.attos <= u128::MAX - self.attos {
            Some(Amount { attos: self.attos + other.attos })
        } else {
            None
        }
    }

    /// The difference, or `None` when `other` is the larger.
    pub fn checked_sub(self, other: Amount) -> (r: Option<Amount>)
        ensures
            other@ <= self@ ==> r == Some(Amount { attos: (self@ - other@) as u128 }),
            other@ > self@ ==> r is None,
    {
        if other.attos <= self.attos {
            Some(Amount { attos: self.attos - other.attos })
        } else {
            None
        }
    }

    /// The fixed-point product rounded toward zero, or `None` when it does
    /// not fit.
    pub fn checked_mul(self, other: Amount) -> (r: Option<Amount>)
        ensures
            mul_floor(self@, other@) <= u128::MAX ==> r == Some(
                Amount { attos: mul_floor(self@, other@) as u128 },
            ),
            mul_floor(self@, other@) > u128::MAX ==> r is None,
    {
        match decimal_checked_mul(self.attos, other.attos) {
            Some(attos) => Some(Amount { attos }),
            None => None,
        }
    }

    /// This amount rounded toward zero to `decimal_places` digits after the
    /// point; more than eighteen places are treated as eighteen.
    pub fn round_down(self, decimal_places: u8) -> (r: Amount)
        ensures
            r@ == round_down(self@, decimal_places as nat),
            r@ <= self@,
    {
        proof {
            lemma_round_down_bounds(self@, decimal_places as nat);
        }
        if decimal_places >= 18 {
            assert(self@ % 1 == 0);
            return self;
        }
        match decimal_round_toward_zero(self.attos, decimal_places) {
            Some(attos) => Amount { attos },
            None => self,
        }
    }

    /// The part of this amount that is due at `rate`, in a currency that
    /// keeps `decimal_places` digits.  `None` when the product does not fit,
    /// which cannot happen for a rate of at most one.
    pub fn share(self, rate: Amount, decimal_places: u8) -> (r: Option<Amount>)
        ensures
            mul_floor(self@, rate@) <= u128::MAX ==> r == Some(
                Amount { attos: share(self@, rate@, decimal_places as nat) as u128 },
            ),
            mul_floor(self@, rate@) > u128::MAX ==> r is None,
            rate@ <= unit() ==> r is Some && r->Some_0@ <= self@,
            r is Some ==> share(self@, rate@, decimal_places as nat) <= mul_floor(self@, rate@),
    {
        proof {
            lemma_round_down_bounds(mul_floor(self@, rate@), decimal_places as nat);
            if rate@ <= unit() {
                lemma_mul_floor_bounded(self@, rate@);
            }
        }
        match self.checked_mul(rate) {
            Some(product) => Some(product.round_down(decimal_places)),
            None => None,
        }
    }
}

/// `Decimal::checked_mul` on two non-negative decimals given by their attos.
///
/// `Decimal` multiplies the attos in 256 bits, divides by `10^18` toward zero
/// and reports `None` on overflow; the quotient is handed back when it fits
/// `u128`, else `None`.  For operands below `2^128` every overflow inside
/// `Decimal` is also an overflow of `u128`, so the result is the floor of the
/// exact product whenever that floor fits.
#[verifier::external_body]
fn decimal_checked_mul(a: u128, b: u128) -> (r: Option<u128>)
    ensures
        mul_floor(a as nat, b as nat) <= u128::MAX ==> r == Some(
            mul_floor(a as nat, b as nat) as u128,
        ),
        mul_floor(a as nat, b as nat) > u128::MAX ==> r is None,
{
    let x = Decimal::from_attos(I192::from(a));
    let y = Decimal::from_attos(I192::from(b));
    match x.checked_mul(y) {
        Some(product) => u128::try_from(product.attos()).ok(),
        None => None,
    }
}

/// `Decimal::for_withdrawal` with `WithdrawStrategy::Rounded(RoundingMode::ToZero)`
/// on a non-negative decimal given by its attos.
///
/// This is `Decimal::checked_round(decimal_places, ToZero)`: the value less its
/// remainder modulo `10^(18 - decimal_places)`, which is what [`round_down`]
/// says for at most eighteen places.  It panics for more than
/// eighteen places, which the precondition excludes, and cannot overflow for
/// a non-negative value.
#[verifier::external_body]
fn decimal_round_toward_zero(a: u128, decimal_places: u8) -> (r: Option<u128>)
    requires
        decimal_places <= 18,
    ensures
        r == Some(round_down(a as nat, decimal_places as nat) as u128),
{
    let x = Decimal::from_attos(I192::from(a));
    match x.for_withdrawal(decimal_places, WithdrawStrategy::Rounded(RoundingMode::ToZero)) {
        Some(rounded) => u128::try_from(rounded.attos()).ok(),
        None => None,
    }
}

} // verus!
