//! Prices.
//!
//! A price is an IEEE 754 double, held here as the 64 bits of its encoding:
//! one sign bit, eleven exponent bits, fifty-two fraction bits. The rules ask
//! whether a price lies below zero, and whether two prices are the same
//! number; both can be read off the bits.

use vstd::prelude::*;
use vstd::std_specs::cmp::PartialEqSpecImpl;

verus! {

/// The sign bit. Alone it encodes negative zero.
pub const SIGN_BIT: u64 = 0x8000_0000_0000_0000;

/// The encoding of positive infinity: a full exponent and no fraction.
pub const INFINITY_BITS: u64 = 0x7ff0_0000_0000_0000;

/// A price, as the bits of its binary64 encoding.
#[derive(Clone, Copy, Debug)]
pub struct Price {
    pub bits: u64,
}

impl Price {
    /// The sign bit is set.
    pub open spec fn sign(self) -> bool {
        self.bits >= SIGN_BIT
    }

    /// The eleven exponent bits, as a number.
    pub open spec fn exponent(self) -> int {
        (self.bits as int / 0x10_0000_0000_0000) % 0x800
    }

    /// The fifty-two fraction bits, as a number.
    pub open spec fn fraction(self) -> int {
        self.bits as int % 0x10_0000_0000_0000
    }

    /// The price is not a number: a full exponent with a fraction.
    pub open spec fn nan(self) -> bool {
        self.exponent() == 0x7ff && self.fraction() != 0
    }

    /// The price is zero, of either sign.
    pub open spec fn zero(self) -> bool {
        self.exponent() == 0 && self.fraction() == 0
    }

    /// The price compares below zero. Neither zero does, and nothing that is
    /// not a number does.
    pub open spec fn negative(self) -> bool {
        self.sign() && !self.nan() && !self.zero()
    }

    /// The price compares at or above zero.
    pub open spec fn non_negative(self) -> bool {
        !self.nan() && (!self.sign() || self.zero())
    }

    /// The two prices compare equal as numbers: the same bits, or two zeros,
    /// and neither of them not a number.
    pub open spec fn same_number(self, other: Price) -> bool {
        &&& !self.nan()
        &&& !other.nan()
        &&& (self.bits == other.bits || (self.zero() && other.zero()))
    }

    /// The price with the encoding `bits`.
    pub fn from_bits(bits: u64) -> (price: Price)
        ensures
            price.bits == bits,
    {
        Price { bits }
    }

    /// The encoding of the price.
    pub fn to_bits(&self) -> (bits: u64)
        ensures
            bits == self.bits,
    {
        self.bits
    }

    /// Whether the price compares below zero.
    pub fn is_negative(&self) -> (below: bool)
        ensures
            below == self.negative(),
    {
        SIGN_BIT < self.bits && self.bits <= SIGN_BIT + INFINITY_BITS
    }

    /// Whether the price is not a number.
    pub fn is_nan(&self) -> (nan: bool)
        ensures
            nan == self.nan(),
    {
        self.bits % SIGN_BIT > INFINITY_BITS
    }

    /// Whether the price is zero, of either sign.
    pub fn is_zero(&self) -> (zero: bool)
        ensures
            zero == self.zero(),
    {
        self.bits % SIGN_BIT == 0
    }
}

/// Prices compare as the numbers they encode: the two zeros are equal, and
/// what is not a number equals nothing, not even itself.
impl PartialEq for Price {
    fn eq(&self, other: &Price) -> (equal: bool) {
        !self.is_nan() && !other.is_nan() && (self.bits == other.bits || (self.is_zero()
            && other.is_zero()))
    }
}

impl PartialEqSpecImpl for Price {
    open spec fn obeys_eq_spec() -> bool {
        true
    }

    open spec fn eq_spec(&self, other: &Price) -> bool {
        self.same_number(*other)
    }
}

} // verus!
