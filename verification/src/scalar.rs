//! Single-precision coefficients, held exactly as their IEEE-754 binary32
//! encodings.
//!
//! Nothing in this module rounds: every operation here is decided by the
//! encoding alone (classification, sign change, comparison), so each contract
//! is an exact statement about bit patterns.
use vstd::prelude::*;

verus! {

/// The encoding of positive zero.
pub const ZERO_BITS: u32 = 0;

/// The encoding of one.
pub const ONE_BITS: u32 = 0x3f80_0000;

/// The sign bit of an encoding.
pub const SIGN_BIT: u32 = 0x8000_0000;

/// The encoding of positive infinity; every larger magnitude is a NaN.
pub const INFINITY_BITS: u32 = 0x7f80_0000;

/// The encoding of the largest finite value.
pub const MAX_BITS: u32 = 0x7f7f_ffff;

/// The magnitude part of an encoding: the encoding with its sign bit cleared.
pub open spec fn magnitude(bits: u32) -> u32 {
    if bits >= SIGN_BIT {
        (bits - SIGN_BIT) as u32
    } else {
        bits
    }
}

/// The position of a non-NaN encoding in the numeric order: encodings of one
/// sign are ordered by magnitude, and both zeros sit at 0.
pub open spec fn order_key(bits: u32) -> int {
    if bits >= SIGN_BIT {
        -(magnitude(bits) as int)
    } else {
        magnitude(bits) as int
    }
}

/// A coefficient in its binary32 encoding.
#[derive(Clone, Copy, Debug)]
pub struct Scalar {
    pub bits: u32,
}

impl Scalar {
    /// The encoding is one of the two zeros.
    pub open spec fn spec_is_zero(self) -> bool {
        magnitude(self.bits) == 0
    }

    /// The encoding is exactly that of one.
    pub open spec fn spec_is_one(self) -> bool {
        self.bits == ONE_BITS
    }

    /// The encoding is a NaN.
    pub open spec fn spec_is_nan(self) -> bool {
        magnitude(self.bits) > INFINITY_BITS
    }

    /// The encoding is neither an infinity nor a NaN.
    pub open spec fn spec_is_finite(self) -> bool {
        magnitude(self.bits) < INFINITY_BITS
    }

    /// The sign bit is set.
    pub open spec fn spec_is_sign_negative(self) -> bool {
        self.bits >= SIGN_BIT
    }

    /// The same magnitude with the opposite sign bit.
    pub open spec fn spec_neg(self) -> Scalar {
        Scalar {
            bits: if self.bits >= SIGN_BIT {
                (self.bits - SIGN_BIT) as u32
            } else {
                (self.bits + SIGN_BIT) as u32
            },
        }
    }

    /// Numeric equality: no NaN equals anything, the two zeros are equal, and
    /// otherwise the encodings must coincide.
    pub open spec fn num_eq(self, other: Scalar) -> bool {
        &&& !self.spec_is_nan()
        &&& !other.spec_is_nan()
        &&& order_key(self.bits) == order_key(other.bits)
    }

    /// Numeric strict order; false as soon as either side is a NaN.
    pub open spec fn num_lt(self, other: Scalar) -> bool {
        &&& !self.spec_is_nan()
        &&& !other.spec_is_nan()
        &&& order_key(self.bits) < order_key(other.bits)
    }

    /// Numeric order; false as soon as either side is a NaN.
    pub open spec fn num_le(self, other: Scalar) -> bool {
        &&& !self.spec_is_nan()
        &&& !other.spec_is_nan()
        &&& order_key(self.bits) <= order_key(other.bits)
    }

    /// Wraps an encoding.
    pub fn from_bits(bits: u32) -> (s: Scalar)
        ensures
            s.bits == bits,
    {
        Scalar { bits }
    }

    /// The encoding.
    pub fn to_bits(self) -> (bits: u32)
        ensures
            bits == self.bits,
    {
        self.bits
    }

    /// Positive zero.
    pub fn zero() -> (s: Scalar)
        ensures
            s.bits == ZERO_BITS,
    {
        Scalar { bits: ZERO_BITS }
    }

    /// One.
    pub fn one() -> (s: Scalar)
        ensures
            s.bits == ONE_BITS,
    {
        Scalar { bits: ONE_BITS }
    }

    /// The largest finite value.
    pub fn max_value() -> (s: Scalar)
        ensures
            s.bits == MAX_BITS,
    {
        Scalar { bits: MAX_BITS }
    }

    fn magnitude_bits(self) -> (m: u32)
        ensures
            m == magnitude(self.bits),
    {
        let bits: u32 = self.bits;
        assert(bits & 0x7fff_ffff == if bits >= 0x8000_0000u32 {
            (bits - 0x8000_0000u32) as u32
        } else {
            bits
        }) by (bit_vector);
        bits & 0x7fff_ffff
    }

    #[verifier::when_used_as_spec(spec_is_zero)]
    pub fn is_zero(self) -> (r: bool)
        ensures
            r == self.spec_is_zero(),
    {
        self.magnitude_bits() == 0
    }

    #[verifier::when_used_as_spec(spec_is_one)]
    pub fn is_one(self) -> (r: bool)
        ensures
            r == self.spec_is_one(),
    {
        self.bits == ONE_BITS
    }

    #[verifier::when_used_as_spec(spec_is_nan)]
    pub fn is_nan(self) -> (r: bool)
        ensures
            r == self.spec_is_nan(),
    {
        self.magnitude_bits() > INFINITY_BITS
    }

    #[verifier::when_used_as_spec(spec_is_finite)]
    pub fn is_finite(self) -> (r: bool)
        ensures
            r == self.spec_is_finite(),
    {
        self.magnitude_bits() < INFINITY_BITS
    }

    #[verifier::when_used_as_spec(spec_is_sign_negative)]
    pub fn is_sign_negative(self) -> (r: bool)
        ensures
            r == self.spec_is_sign_negative(),
    {
        self.bits >= SIGN_BIT
    }

    /// Flips the sign bit and nothing else.
    #[verifier::when_used_as_spec(spec_neg)]
    pub fn neg(self) -> (r: Scalar)
        ensures
            r == self.spec_neg(),
    {
        let bits: u32 = self.bits;
        assert(bits ^ 0x8000_0000 == if bits >= 0x8000_0000u32 {
            (bits - 0x8000_0000u32) as u32
        } else {
            (bits + 0x8000_0000u32) as u32
        }) by (bit_vector);
        Scalar { bits: bits ^ 0x8000_0000 }
    }

    /// Whether two encodings are the same bit pattern.
    pub fn same_bits(self, other: Scalar) -> (r: bool)
        ensures
            r == (self == other),
    {
        self.bits == other.bits
    }

    /// Numeric `<`.
    pub fn lt(self, other: Scalar) -> (r: bool)
        ensures
            r == self.num_lt(other),
    {
        if self.is_nan() || other.is_nan() {
            return false;
        }
        let a: u32 = self.magnitude_bits();
        let b: u32 = other.magnitude_bits();
        if self.bits >= SIGN_BIT {
            if other.bits >= SIGN_BIT {
                b < a
            } else {
                a != 0 || b != 0
            }
        } else {
            if other.bits >= SIGN_BIT {
                false
            } else {
                a < b
            }
        }
    }

    /// The smaller of two encodings in the numeric order, and `self` when
    /// neither is smaller: when they are numerically equal, or when one is a
    /// NaN.
    pub open spec fn spec_min(self, other: Scalar) -> Scalar {
        if other.num_lt(self) {
            other
        } else {
            self
        }
    }

    /// The larger of two encodings in the numeric order, and `self` when
    /// neither is larger.
    pub open spec fn spec_max(self, other: Scalar) -> Scalar {
        if self.num_lt(other) {
            other
        } else {
            self
        }
    }

    #[verifier::when_used_as_spec(spec_min)]
    pub fn min(self, other: Scalar) -> (r: Scalar)
        ensures
            r == self.spec_min(other),
    {
        if other.lt(self) {
            other
        } else {
            self
        }
    }

    #[verifier::when_used_as_spec(spec_max)]
    pub fn max(self, other: Scalar) -> (r: Scalar)
        ensures
            r == self.spec_max(other),
    {
        if self.lt(other) {
            other
        } else {
            self
        }
    }

    /// Numeric `<=`.
    pub fn le(self, other: Scalar) -> (r: bool)
        ensures
            r == self.num_le(other),
    {
        if self.is_nan() || other.is_nan() {
            return false;
        }
        !other.lt(self)
    }
}

impl PartialEq for Scalar {
    /// Numeric equality, as `==` on the coefficient that the encoding stands for.
    fn eq(&self, other: &Scalar) -> (r: bool) {
        if self.is_nan() || other.is_nan() {
            return false;
        }
        self.bits == other.bits || (self.magnitude_bits() == 0 && other.magnitude_bits() == 0)
    }
}

impl vstd::std_specs::cmp::PartialEqSpecImpl for Scalar {
    open spec fn obeys_eq_spec() -> bool {
        true
    }

    open spec fn eq_spec(&self, other: &Scalar) -> bool {
        self.num_eq(*other)
    }
}

/// Numeric equality is symmetric, and reflexive on everything but a NaN.
pub proof fn lemma_num_eq_properties(a: Scalar, b: Scalar)
    ensures
        a.num_eq(b) == b.num_eq(a),
        a.num_eq(a) == !a.spec_is_nan(),
        a == b && !a.spec_is_nan() ==> a.num_eq(b),
{
}

/// Zero and one are recognised through numeric equality exactly as through
/// their encodings.
pub proof fn lemma_zero_one_by_equality(a: Scalar)
    ensures
        a.spec_is_zero() == a.num_eq(Scalar { bits: ZERO_BITS }),
        a.spec_is_one() == a.num_eq(Scalar { bits: ONE_BITS }),
        a.spec_is_zero() ==> a.spec_is_finite(),
        a.spec_is_one() ==> a.spec_is_finite(),
{
}

/// Changing the sign twice gives the encoding back, keeps the class of the
/// value, and reverses the order.
pub proof fn lemma_neg_properties(a: Scalar, b: Scalar)
    ensures
        a.spec_neg().spec_neg() == a,
        a.spec_neg().spec_is_nan() == a.spec_is_nan(),
        a.spec_neg().spec_is_finite() == a.spec_is_finite(),
        a.spec_neg().spec_is_zero() == a.spec_is_zero(),
        a.num_lt(b) == b.spec_neg().num_lt(a.spec_neg()),
{
}

/// On encodings that are not NaN, the numeric order is total, and `<=` is `<`
/// or numeric equality.
pub proof fn lemma_order_total(a: Scalar, b: Scalar)
    requires
        !a.spec_is_nan(),
        !b.spec_is_nan(),
    ensures
        a.num_lt(b) || a.num_eq(b) || b.num_lt(a),
        a.num_le(b) == (a.num_lt(b) || a.num_eq(b)),
        a.num_le(b) == !b.num_lt(a),
{
}

/// Of two encodings that are not NaN, the smaller is one of them and is at
/// most either, and the larger is one of them and is at least either.
pub proof fn lemma_min_max(a: Scalar, b: Scalar)
    requires
        !a.spec_is_nan(),
        !b.spec_is_nan(),
    ensures
        a.spec_min(b) == a || a.spec_min(b) == b,
        a.spec_max(b) == a || a.spec_max(b) == b,
        a.spec_min(b).num_le(a) && a.spec_min(b).num_le(b),
        a.num_le(a.spec_max(b)) && b.num_le(a.spec_max(b)),
        a.spec_min(b).num_le(a.spec_max(b)),
{
}

} // verus!
