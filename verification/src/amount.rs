//! Fixed-point token quantity.
//!
//! An `Amount` is a signed 64-bit integer number of atomic token units
//! (three implied decimal digits for fee rounding). All arithmetic on
//! amounts is checked or saturating; nothing here overflows silently.

use vstd::prelude::*;

verus! {

/// A signed quantity of tokens, in atomic units.
#[derive(Clone, Copy, Debug, PartialEq, Eq, Structural)]
pub struct Amount(pub i64);

impl View for Amount {
    type V = int;

    open spec fn view(&self) -> int {
        self.0 as int
    }
}

impl Amount {
    pub fn new(value: i64) -> (r: Amount)
        ensures
            r@ == value as int,
    {
        Amount(value)
    }

    pub fn zero() -> (r: Amount)
        ensures
            r@ == 0,
    {
        Amount(0)
    }

    pub fn value(self) -> (r: i64)
        ensures
            r as int == self@,
    {
        self.0
    }

    pub fn is_zero(self) -> (r: bool)
        ensures
            r == (self@ == 0),
    {
        self.0 == 0
    }

    pub fn is_positive(self) -> (r: bool)
        ensures
            r == (self@ > 0),
    {
        self.0 > 0
    }

    pub fn is_negative(self) -> (r: bool)
        ensures
            r == (self@ < 0),
    {
        self.0 < 0
    }

    /// The sum, or `None` when it does not fit in a 64-bit amount.
    pub fn checked_add(self, other: Amount) -> (r: Option<Amount>)
        ensures
            i64::MIN <= self@ + other@ <= i64::MAX ==> (r matches Some(s) && s@ == self@ + other@),
            !(i64::MIN <= self@ + other@ <= i64::MAX) ==> r is None,
    {
        match self.0.checked_add(other.0) {
            Some(v) => Some(Amount(v)),
            None => None,
        }
    }

    /// The difference, or `None` when it does not fit in a 64-bit amount.
    pub fn checked_sub(self, other: Amount) -> (r: Option<Amount>)
        ensures
            i64::MIN <= self@ - other@ <= i64::MAX ==> (r matches Some(s) && s@ == self@ - other@),
            !(i64::MIN <= self@ - other@ <= i64::MAX) ==> r is None,
    {
        match self.0.checked_sub(other.0) {
            Some(v) => Some(Amount(v)),
            None => None,
        }
    }

    /// The difference, clamped to the representable range.
    pub fn saturating_sub(self, other: Amount) -> (r: Amount)
        ensures
            self@ - other@ < i64::MIN ==> r@ == i64::MIN,
            self@ - other@ > i64::MAX ==> r@ == i64::MAX,
            i64::MIN <= self@ - other@ <= i64::MAX ==> r@ == self@ - other@,
    {
        match self.0.checked_sub(other.0) {
            Some(v) => Amount(v),
            None => {
                if self.0 >= 0 {
                    Amount(i64::MAX)
                } else {
                    Amount(i64::MIN)
                }
            },
        }
    }
}

} // verus!
