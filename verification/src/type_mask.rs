//! The bitmask that classifies a transform by the structure of its
//! coefficients.
use vstd::prelude::*;

verus! {

/// Bit of a transform that moves the origin.
pub const TRANSLATE_BIT: u32 = 0x1;

/// Bit of a transform that scales.
pub const SCALE_BIT: u32 = 0x2;

/// Bit of a transform that skews or rotates.
pub const AFFINE_BIT: u32 = 0x4;

/// Bit of a transform whose bottom row is not `(0, 0, 1)`.
pub const PERSPECTIVE_BIT: u32 = 0x8;

/// All four classification bits.
pub const ALL_BITS: u32 = 0xf;

/// A set of classification bits. The empty set is the identity class.
#[derive(Clone, Copy, Debug, PartialEq, Eq, Structural)]
pub struct TypeMask {
    pub bits: u32,
}

impl TypeMask {
    /// No bit set: the transform is the identity.
    pub fn identity() -> (r: TypeMask)
        ensures
            r.bits == 0,
    {
        TypeMask { bits: 0 }
    }

    pub fn translate() -> (r: TypeMask)
        ensures
            r.bits == TRANSLATE_BIT,
    {
        TypeMask { bits: TRANSLATE_BIT }
    }

    pub fn scale() -> (r: TypeMask)
        ensures
            r.bits == SCALE_BIT,
    {
        TypeMask { bits: SCALE_BIT }
    }

    pub fn affine() -> (r: TypeMask)
        ensures
            r.bits == AFFINE_BIT,
    {
        TypeMask { bits: AFFINE_BIT }
    }

    pub fn perspective() -> (r: TypeMask)
        ensures
            r.bits == PERSPECTIVE_BIT,
    {
        TypeMask { bits: PERSPECTIVE_BIT }
    }

    /// Every classification bit.
    pub fn all() -> (r: TypeMask)
        ensures
            r.bits == ALL_BITS,
    {
        TypeMask { bits: ALL_BITS }
    }

    /// The raw bits.
    pub fn bits(self) -> (r: u32)
        ensures
            r == self.bits,
    {
        self.bits
    }

    /// Keeps the classification bits of `bits` and drops every other bit.
    pub fn from_bits_truncate(bits: u32) -> (r: TypeMask)
        ensures
            r.bits == bits & ALL_BITS,
            r.bits <= ALL_BITS,
    {
        assert(bits & 0xf <= 0xf) by (bit_vector);
        TypeMask { bits: bits & ALL_BITS }
    }

    /// The mask if `bits` holds classification bits only.
    pub fn from_bits(bits: u32) -> (r: Option<TypeMask>)
        ensures
            r == if bits <= ALL_BITS {
                Some(TypeMask { bits })
            } else {
                None
            },
    {
        if bits <= ALL_BITS {
            Some(TypeMask { bits })
        } else {
            None
        }
    }

    pub open spec fn spec_is_empty(self) -> bool {
        self.bits == 0
    }

    #[verifier::when_used_as_spec(spec_is_empty)]
    pub fn is_empty(self) -> (r: bool)
        ensures
            r == self.spec_is_empty(),
    {
        self.bits == 0
    }

    /// Every bit of `other` is set in `self`.
    pub open spec fn spec_contains(self, other: TypeMask) -> bool {
        self.bits & other.bits == other.bits
    }

    #[verifier::when_used_as_spec(spec_contains)]
    pub fn contains(self, other: TypeMask) -> (r: bool)
        ensures
            r == self.spec_contains(other),
    {
        self.bits & other.bits == other.bits
    }

    /// Some bit of `other` is set in `self`.
    pub open spec fn spec_intersects(self, other: TypeMask) -> bool {
        self.bits & other.bits != 0
    }

    #[verifier::when_used_as_spec(spec_intersects)]
    pub fn intersects(self, other: TypeMask) -> (r: bool)
        ensures
            r == self.spec_intersects(other),
    {
        self.bits & other.bits != 0
    }
}

impl core::ops::BitOr for TypeMask {
    type Output = TypeMask;

    fn bitor(self, rhs: TypeMask) -> (r: TypeMask) {
        TypeMask { bits: self.bits | rhs.bits }
    }
}

impl vstd::std_specs::ops::BitOrSpecImpl for TypeMask {
    open spec fn obeys_bitor_spec() -> bool {
        true
    }

    open spec fn bitor_req(self, rhs: TypeMask) -> bool {
        true
    }

    open spec fn bitor_spec(self, rhs: TypeMask) -> TypeMask {
        TypeMask { bits: self.bits | rhs.bits }
    }
}

impl core::ops::BitAnd for TypeMask {
    type Output = TypeMask;

    fn bitand(self, rhs: TypeMask) -> (r: TypeMask) {
        TypeMask { bits: self.bits & rhs.bits }
    }
}

impl vstd::std_specs::ops::BitAndSpecImpl for TypeMask {
    open spec fn obeys_bitand_spec() -> bool {
        true
    }

    open spec fn bitand_req(self, rhs: TypeMask) -> bool {
        true
    }

    open spec fn bitand_spec(self, rhs: TypeMask) -> TypeMask {
        TypeMask { bits: self.bits & rhs.bits }
    }
}

impl core::ops::Not for TypeMask {
    type Output = TypeMask;

    /// The classification bits that `self` lacks.
    fn not(self) -> (r: TypeMask) {
        TypeMask { bits: !self.bits & ALL_BITS }
    }
}

impl vstd::std_specs::ops::NotSpecImpl for TypeMask {
    open spec fn obeys_not_spec() -> bool {
        true
    }

    open spec fn not_req(self) -> bool {
        true
    }

    open spec fn not_spec(self) -> TypeMask {
        TypeMask { bits: !self.bits & ALL_BITS }
    }
}

/// The four bits are distinct, and together they are `ALL_BITS`; a mask within
/// `ALL_BITS` is the sum of the bits it holds.
pub proof fn lemma_bits_partition(bits: u32)
    requires
        bits <= ALL_BITS,
    ensures
        TRANSLATE_BIT | SCALE_BIT | AFFINE_BIT | PERSPECTIVE_BIT == ALL_BITS,
        bits == (bits & TRANSLATE_BIT) + (bits & SCALE_BIT) + (bits & AFFINE_BIT) + (bits
            & PERSPECTIVE_BIT),
        bits & TRANSLATE_BIT == 0 || bits & TRANSLATE_BIT == TRANSLATE_BIT,
        bits & SCALE_BIT == 0 || bits & SCALE_BIT == SCALE_BIT,
        bits & AFFINE_BIT == 0 || bits & AFFINE_BIT == AFFINE_BIT,
        bits & PERSPECTIVE_BIT == 0 || bits & PERSPECTIVE_BIT == PERSPECTIVE_BIT,
{
    assert(0x1u32 | 0x2u32 | 0x4u32 | 0x8u32 == 0xfu32) by (bit_vector);
    assert(bits <= 0xf ==> bits == (bits & 0x1) + (bits & 0x2) + (bits & 0x4) + (bits & 0x8))
        by (bit_vector);
    assert(bits & 0x1 == 0 || bits & 0x1 == 0x1) by (bit_vector);
    assert(bits & 0x2 == 0 || bits & 0x2 == 0x2) by (bit_vector);
    assert(bits & 0x4 == 0 || bits & 0x4 == 0x4) by (bit_vector);
    assert(bits & 0x8 == 0 || bits & 0x8 == 0x8) by (bit_vector);
}

} // verus!
