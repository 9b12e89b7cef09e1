//! Fee policy and issuer-wide configuration.
//!
//! A fee is either a fixed amount or a percentage of the transacted amount.
//! Percentage fees are computed with scaled integer arithmetic and rounded
//! half-up on the third implied decimal digit; no floating point is involved.

use vstd::prelude::*;

use crate::amount::Amount;

verus! {

/// A fee rule: a fixed amount, or a percentage (0 to 100) of the amount.
#[derive(Clone, Copy, Debug, PartialEq, Eq, Structural)]
pub enum FeeSpec {
    Fixed(Amount),
    Percentage(u8),
}

/// `v * p / 100`, rounded half-up, for `v >= 0` and `0 <= p <= 100`.
pub open spec fn percentage_of(v: int, p: int) -> int {
    (v * p + 50) / 100
}

/// The fee a rule charges on an amount: a fixed fee is returned as it is
/// (even when it exceeds the amount — callers bound-check separately), and a
/// percentage fee is the rounded percentage of the amount.
pub open spec fn spec_fee(spec: FeeSpec, v: int) -> int {
    match spec {
        FeeSpec::Fixed(fee) => fee@,
        FeeSpec::Percentage(p) => percentage_of(v, p as int),
    }
}

impl FeeSpec {
    /// A well-formed rule charges a non-negative fee: a percentage is at
    /// most 100 and a fixed fee is not negative.
    pub open spec fn wf(self) -> bool {
        match self {
            FeeSpec::Fixed(fee) => fee@ >= 0,
            FeeSpec::Percentage(p) => p <= 100,
        }
    }

    pub fn calculate_fee(&self, amount: Amount) -> (r: Amount)
        requires
            self.wf(),
            0 <= amount@,
        ensures
            r@ == spec_fee(*self, amount@),
    {
        match self {
            FeeSpec::Fixed(fee) => *fee,
            FeeSpec::Percentage(percentage) => div_rounded(amount, *percentage as u64),
        }
    }
}

/// `v * p / 100` rounded half-up on the third decimal digit: the product is
/// scaled by 1000, divided, and the fractional remainder compared against
/// 500 to decide the rounding direction.
pub fn div_rounded(v: Amount, p: u64) -> (r: Amount)
    requires
        0 <= v@,
        p <= 100,
    ensures
        r@ == percentage_of(v@, p as int),
        0 <= r@ <= v@,
{
    proof {
        assert(v@ * p <= i64::MAX * 100) by (nonlinear_arith)
            requires
                0 <= v@ <= i64::MAX,
                0 <= p <= 100,
        ;
        lemma_percentage_bounds(v@, p as int);
    }
    let prod: u128 = (v.0 as u128) * (p as u128) + 50;
    let q: u128 = prod / 100;
    Amount(q as i64)
}

/// The rounded percentage never exceeds the base amount and is never
/// negative, for any percentage between 0 and 100.
pub proof fn lemma_percentage_bounds(v: int, p: int)
    requires
        0 <= v,
        0 <= p <= 100,
    ensures
        0 <= percentage_of(v, p) <= v,
{
    assert(0 <= v * p <= v * 100) by (nonlinear_arith)
        requires
            0 <= v,
            0 <= p <= 100,
    ;
    assert((v * 100 + 50) / 100 == v) by (nonlinear_arith)
        requires
            0 <= v,
    ;
    assert((v * p + 50) / 100 <= (v * 100 + 50) / 100) by (nonlinear_arith)
        requires
            0 <= v * p <= v * 100,
    ;
}

/// Issuer-wide policy: the transfer fee, the fee charged when exchanging
/// stable tokens for wrapped tokens, and the exchange limit assigned to a
/// newly created user.
#[derive(Clone, Copy, Debug, PartialEq, Eq, Structural)]
pub struct StableCoinConfig {
    pub transfer_fee: FeeSpec,
    pub wrapped_exchange_fee: FeeSpec,
    pub default_exchange_limit: Amount,
}

impl StableCoinConfig {
    /// The exchange fee charges a non-negative fee, a percentage transfer
    /// fee is in range, and the default exchange limit is positive.
    pub open spec fn wf(self) -> bool {
        &&& self.wrapped_exchange_fee.wf()
        &&& (self.transfer_fee matches FeeSpec::Percentage(p) ==> p <= 100)
        &&& self.default_exchange_limit@ > 0
    }
}

/// The configuration an issuer starts with: a fixed transfer fee of one
/// unit, a one-percent wrapped-exchange fee, and a default exchange limit
/// of one thousand units.
pub open spec fn default_config() -> StableCoinConfig {
    StableCoinConfig {
        transfer_fee: FeeSpec::Fixed(Amount(1)),
        wrapped_exchange_fee: FeeSpec::Percentage(1),
        default_exchange_limit: Amount(1000),
    }
}

impl Default for StableCoinConfig {
    /// A fixed transfer fee of one unit, a one-percent wrapped-exchange fee,
    /// and a default exchange limit of one thousand units.
    fn default() -> (r: StableCoinConfig)
        ensures
            r == default_config(),
            r.wf(),
    {
        StableCoinConfig {
            wrapped_exchange_fee: FeeSpec::Percentage(1),
            transfer_fee: FeeSpec::Fixed(Amount(1)),
            default_exchange_limit: Amount(1000),
        }
    }
}

} // verus!
