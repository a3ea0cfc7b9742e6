//! Exact decimal amounts of money.

use vstd::prelude::*;

verus! {

/// The largest number of decimal places that an amount can have.
pub const MAX_SCALE: u32 = 28;

/// The bound of an amount's digits: two to the power of 96.
pub const MANTISSA_BOUND: i128 = 79228162514264337593543950336;

/// An exact decimal number: `mantissa` divided by ten to the power of
/// `scale`. Twelve and a half with two decimal places is the mantissa 1250
/// at scale 2. No binary fraction is involved anywhere.
#[derive(Debug, Clone, Copy, PartialEq, Eq, Structural)]
pub struct Amount {
    pub mantissa: i128,
    pub scale: u32,
}

impl Amount {
    /// The amount has at most 28 decimal places and digits of less than 96
    /// bits.
    pub open spec fn valid(&self) -> bool {
        &&& self.scale <= MAX_SCALE
        &&& -MANTISSA_BOUND < self.mantissa < MANTISSA_BOUND
    }

    /// The amount `mantissa / 10^scale`, where it is within the limits.
    pub fn new(mantissa: i128, scale: u32) -> (r: Option<Amount>)
        ensures
            r is Some <==> (Amount { mantissa, scale }).valid(),
            r is Some ==> r->0 == (Amount { mantissa, scale }),
    {
        let amount = Amount { mantissa, scale };
        if amount.is_valid() {
            Some(amount)
        } else {
            None
        }
    }

    /// Whether the amount is within the limits.
    pub fn is_valid(&self) -> (r: bool)
        ensures
            r == self.valid(),
    {
        self.scale <= MAX_SCALE && -MANTISSA_BOUND < self.mantissa && self.mantissa
            < MANTISSA_BOUND
    }

    /// The whole number `n`.
    pub fn from_integer(n: i64) -> (r: Amount)
        ensures
            r == (Amount { mantissa: n as i128, scale: 0 }),
            r.valid(),
    {
        Amount { mantissa: n as i128, scale: 0 }
    }

    /// The amount is a whole number, written without decimal places, that
    /// fits 64 bits.
    pub open spec fn is_integer(&self) -> bool {
        self.scale == 0 && i64::MIN <= self.mantissa <= i64::MAX
    }

    /// The whole number that the amount is, if it is one written without
    /// decimal places.
    pub fn to_integer(&self) -> (r: Option<i64>)
        ensures
            r is Some <==> self.is_integer(),
            r is Some ==> r->0 == self.mantissa,
    {
        if self.scale == 0 && self.mantissa >= i64::MIN as i128 && self.mantissa
            <= i64::MAX as i128 {
            Some(self.mantissa as i64)
        } else {
            None
        }
    }
}

} // verus!
