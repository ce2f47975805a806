//! IEEE-754 binary32 values held as bit patterns, with the IEEE comparison rules.

use vstd::prelude::*;
use vstd::std_specs::cmp::PartialEqSpecImpl;
use vstd::std_specs::cmp::PartialOrdSpecImpl;
use core::cmp::Ordering;

verus! {

/// The bit pattern of `0.0_f32`
pub const ZERO_BITS: u32 = 0x0000_0000;

/// The bit pattern of `1.0_f32`
pub const ONE_BITS: u32 = 0x3f80_0000;

/// The bit pattern at which the sign bit is set
pub const SIGN_BIT: u32 = 0x8000_0000;

/// The magnitude bits of positive infinity
pub const INFINITY_BITS: u32 = 0x7f80_0000;

/// A 32-bit floating-point value, held as its IEEE-754 bit pattern
///
/// Comparisons follow IEEE-754 (and so Rust's `f32`): NaN is unordered and unequal to
/// everything, and `-0.0 == 0.0`.
#[derive(Clone, Copy, Debug)]
pub struct F32Bits {
    /// The raw bit pattern, as given by `f32::to_bits`
    pub bits: u32,
}

/// The magnitude of a bit pattern, i.e. all bits except the sign bit
pub open spec fn magnitude(bits: u32) -> nat {
    if bits >= SIGN_BIT {
        (bits - SIGN_BIT) as nat
    } else {
        bits as nat
    }
}

/// A bit pattern is NaN when its exponent bits are all set and its mantissa is non-zero
pub open spec fn bits_are_nan(bits: u32) -> bool {
    magnitude(bits) > INFINITY_BITS
}

/// The position of a non-NaN value on a line that orders values as IEEE-754 does
///
/// Both zeros map to 0; the magnitude order of binary32 values is the order of their
/// magnitude bits.
pub open spec fn order_key(bits: u32) -> int {
    if bits >= SIGN_BIT {
        -(magnitude(bits) as int)
    } else {
        magnitude(bits) as int
    }
}

impl F32Bits {
    /// Makes a value from its bit pattern
    pub fn from_bits(bits: u32) -> (r: F32Bits)
        ensures
            r.bits == bits,
    {
        F32Bits { bits }
    }

    /// `0.0`
    pub fn zero() -> (r: F32Bits)
        ensures
            r.bits == ZERO_BITS,
    {
        F32Bits { bits: ZERO_BITS }
    }

    /// `1.0`
    pub fn one() -> (r: F32Bits)
        ensures
            r.bits == ONE_BITS,
    {
        F32Bits { bits: ONE_BITS }
    }

    /// True for NaN values
    pub open spec fn nan(self) -> bool {
        bits_are_nan(self.bits)
    }

    /// The value's position on the IEEE order line (meaningful for non-NaN values)
    pub open spec fn key(self) -> int {
        order_key(self.bits)
    }

    /// IEEE `self < other`
    pub open spec fn ieee_lt(self, other: F32Bits) -> bool {
        !self.nan() && !other.nan() && self.key() < other.key()
    }

    /// IEEE `self <= other`
    pub open spec fn ieee_le(self, other: F32Bits) -> bool {
        !self.nan() && !other.nan() && self.key() <= other.key()
    }

    /// IEEE `self == other`
    pub open spec fn ieee_eq(self, other: F32Bits) -> bool {
        !self.nan() && !other.nan() && self.key() == other.key()
    }

    /// IEEE three-way comparison, `None` when either side is NaN
    pub open spec fn ieee_partial_order(self, other: F32Bits) -> Option<Ordering> {
        if self.nan() || other.nan() {
            None
        } else if self.key() < other.key() {
            Some(Ordering::Less)
        } else if self.key() == other.key() {
            Some(Ordering::Equal)
        } else {
            Some(Ordering::Greater)
        }
    }

    /// Whether the value lies in `0.0..=1.0`, as `RangeInclusive::contains` decides it
    pub open spec fn in_unit_range(self) -> bool {
        F32Bits { bits: ZERO_BITS }.ieee_le(self) && self.ieee_le(F32Bits { bits: ONE_BITS })
    }

    /// Returns true if the value is NaN
    pub fn is_nan(&self) -> (r: bool)
        ensures
            r == self.nan(),
    {
        let m = if self.bits >= SIGN_BIT { self.bits - SIGN_BIT } else { self.bits };
        m > INFINITY_BITS
    }

    /// IEEE `self < other`
    pub fn less_than(&self, other: &F32Bits) -> (r: bool)
        ensures
            r == self.ieee_lt(*other),
    {
        if self.is_nan() || other.is_nan() {
            return false;
        }
        let a_neg = self.bits >= SIGN_BIT;
        let b_neg = other.bits >= SIGN_BIT;
        let ma = if a_neg { self.bits - SIGN_BIT } else { self.bits };
        let mb = if b_neg { other.bits - SIGN_BIT } else { other.bits };
        if a_neg && b_neg {
            ma > mb
        } else if a_neg {
            !(ma == 0 && mb == 0)
        } else if b_neg {
            false
        } else {
            ma < mb
        }
    }

    /// IEEE `self == other`
    pub fn equals(&self, other: &F32Bits) -> (r: bool)
        ensures
            r == self.ieee_eq(*other),
    {
        if self.is_nan() || other.is_nan() {
            return false;
        }
        let a_neg = self.bits >= SIGN_BIT;
        let b_neg = other.bits >= SIGN_BIT;
        let ma = if a_neg { self.bits - SIGN_BIT } else { self.bits };
        let mb = if b_neg { other.bits - SIGN_BIT } else { other.bits };
        if a_neg == b_neg {
            ma == mb
        } else {
            ma == 0 && mb == 0
        }
    }

    /// IEEE `self <= other`
    pub fn less_or_equal(&self, other: &F32Bits) -> (r: bool)
        ensures
            r == self.ieee_le(*other),
    {
        self.less_than(other) || self.equals(other)
    }

    /// Whether the value lies in `0.0..=1.0`
    pub fn is_in_unit_range(&self) -> (r: bool)
        ensures
            r == self.in_unit_range(),
    {
        F32Bits::zero().less_or_equal(self) && self.less_or_equal(&F32Bits::one())
    }
}

impl PartialEq for F32Bits {
    fn eq(&self, other: &Self) -> (r: bool) {
        self.equals(other)
    }
}

impl PartialEqSpecImpl for F32Bits {
    open spec fn obeys_eq_spec() -> bool {
        true
    }

    open spec fn eq_spec(&self, other: &F32Bits) -> bool {
        self.ieee_eq(*other)
    }
}

impl PartialOrd for F32Bits {
    fn partial_cmp(&self, other: &Self) -> (r: Option<Ordering>) {
        if self.less_than(other) {
            Some(Ordering::Less)
        } else if self.equals(other) {
            Some(Ordering::Equal)
        } else if other.less_than(self) {
            Some(Ordering::Greater)
        } else {
            None
        }
    }
}

impl PartialOrdSpecImpl for F32Bits {
    open spec fn obeys_partial_cmp_spec() -> bool {
        true
    }

    open spec fn partial_cmp_spec(&self, other: &F32Bits) -> Option<Ordering> {
        self.ieee_partial_order(*other)
    }
}

} // verus!
