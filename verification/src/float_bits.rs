use vstd::prelude::*;

verus! {

/// Scale of the exponent field of an IEEE 754 binary64 bit pattern.
pub open spec fn exponent_unit() -> int {
    0x10_0000_0000_0000
}

/// Scale of the sign bit of an IEEE 754 binary64 bit pattern.
pub open spec fn sign_unit() -> int {
    0x8000_0000_0000_0000
}

/// The 11-bit biased exponent field.
pub open spec fn exponent_field(bits: u64) -> int {
    (bits as int / exponent_unit()) % 2048
}

/// The 52-bit fraction field.
pub open spec fn fraction_field(bits: u64) -> int {
    bits as int % exponent_unit()
}

/// Whether the sign bit is set.
pub open spec fn sign_set(bits: u64) -> bool {
    bits as int >= sign_unit()
}

/// The bit pattern without its sign bit: it grows with the absolute value.
pub open spec fn magnitude(bits: u64) -> int {
    bits as int % sign_unit()
}

/// A 64-bit IEEE 754 floating-point number, held as its bit pattern so that
/// its comparisons can be stated and proved exactly.
#[derive(Clone, Copy, Debug)]
pub struct F64Bits {
    pub bits: u64,
}

impl F64Bits {
    /// Whether the number is a NaN.
    pub open spec fn nan(self) -> bool {
        exponent_field(self.bits) == 2047 && fraction_field(self.bits) != 0
    }

    /// Whether the number is neither infinite nor NaN.
    pub open spec fn finite(self) -> bool {
        exponent_field(self.bits) != 2047
    }

    /// An integer that orders every non-NaN number as IEEE 754 does, with
    /// both zeros equal.
    pub open spec fn order_key(self) -> int {
        if sign_set(self.bits) {
            -magnitude(self.bits)
        } else {
            magnitude(self.bits)
        }
    }

    /// IEEE 754 `<`: false whenever a NaN takes part.
    pub open spec fn less_than(self, other: F64Bits) -> bool {
        !self.nan() && !other.nan() && self.order_key() < other.order_key()
    }

    /// IEEE 754 `<=`: false whenever a NaN takes part.
    pub open spec fn at_most(self, other: F64Bits) -> bool {
        !self.nan() && !other.nan() && self.order_key() <= other.order_key()
    }

    /// IEEE 754 `==`: false whenever a NaN takes part; the two zeros are equal.
    pub open spec fn same_value(self, other: F64Bits) -> bool {
        !self.nan() && !other.nan() && self.order_key() == other.order_key()
    }

    /// The number whose bit pattern is `bits`.
    pub fn from_bits(bits: u64) -> (r: F64Bits)
        ensures
            r.bits == bits,
    {
        F64Bits { bits }
    }

    /// `f64::is_nan`.
    pub fn is_nan(&self) -> (r: bool)
        ensures
            r == self.nan(),
    {
        (self.bits / 0x10_0000_0000_0000) % 2048 == 2047 && self.bits % 0x10_0000_0000_0000 != 0
    }

    /// `f64::is_finite`.
    pub fn is_finite(&self) -> (r: bool)
        ensures
            r == self.finite(),
    {
        (self.bits / 0x10_0000_0000_0000) % 2048 != 2047
    }

    /// The order key of a number, as an `i64`.
    fn key(&self) -> (r: i64)
        ensures
            r == self.order_key(),
    {
        let m = (self.bits % 0x8000_0000_0000_0000) as i64;
        if self.bits >= 0x8000_0000_0000_0000 {
            -m
        } else {
            m
        }
    }

    /// IEEE 754 `self < other`.
    pub fn lt(&self, other: &F64Bits) -> (r: bool)
        ensures
            r == self.less_than(*other),
    {
        !self.is_nan() && !other.is_nan() && self.key() < other.key()
    }

    /// IEEE 754 `self <= other`.
    pub fn le(&self, other: &F64Bits) -> (r: bool)
        ensures
            r == self.at_most(*other),
    {
        !self.is_nan() && !other.is_nan() && self.key() <= other.key()
    }

    /// IEEE 754 `self == other`.
    pub fn equals(&self, other: &F64Bits) -> (r: bool)
        ensures
            r == self.same_value(*other),
    {
        !self.is_nan() && !other.is_nan() && self.key() == other.key()
    }
}

/// The default rise and fall factors, 0.35 and 0.22, lie in `(0, 1]`.
pub proof fn lemma_default_alphas_in_range()
    ensures
        (F64Bits { bits: 0 }).at_most((F64Bits { bits: 0x3fd6666666666666 })),
        (F64Bits { bits: 0x3fd6666666666666 }).at_most((F64Bits { bits: 0x3ff0000000000000 })),
        !(F64Bits { bits: 0x3fd6666666666666 }).same_value((F64Bits { bits: 0 })),
        (F64Bits { bits: 0 }).at_most((F64Bits { bits: 0x3fcc28f5c28f5c29 })),
        (F64Bits { bits: 0x3fcc28f5c28f5c29 }).at_most((F64Bits { bits: 0x3ff0000000000000 })),
        !(F64Bits { bits: 0x3fcc28f5c28f5c29 }).same_value((F64Bits { bits: 0 })),
{
}

/// The lux values of the default curve, 20, 80 and 250, are finite and
/// positive.
pub proof fn lemma_default_curve_lux_positive()
    ensures
        (F64Bits { bits: 0x4034000000000000 }).finite(),
        (F64Bits { bits: 0 }).less_than((F64Bits { bits: 0x4034000000000000 })),
        (F64Bits { bits: 0x4054000000000000 }).finite(),
        (F64Bits { bits: 0 }).less_than((F64Bits { bits: 0x4054000000000000 })),
        (F64Bits { bits: 0x406f400000000000 }).finite(),
        (F64Bits { bits: 0 }).less_than((F64Bits { bits: 0x406f400000000000 })),
{
}

} // verus!

