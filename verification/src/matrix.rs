//! A 3x3 homogeneous transform of the plane.
//!
//! ```text
//! [ scale_x  skew_x   trans_x ]
//! [ skew_y   scale_y  trans_y ]
//! [ persp_0  persp_1  persp_2 ]
//! ```
//!
//! The nine coefficients are stored row by row as exact encodings. This module
//! stores, classifies and compares them; it performs no rounding arithmetic.
use vstd::prelude::*;
use core::ops::Not;
use crate::geometry::RSXform;
use crate::geometry::Vector;
use crate::scalar::Scalar;
use crate::scalar::ONE_BITS;
use crate::scalar::ZERO_BITS;
use crate::scalar::MAX_BITS;
use crate::type_mask::TypeMask;
use crate::type_mask::AFFINE_BIT;
use crate::type_mask::ALL_BITS;
use crate::type_mask::PERSPECTIVE_BIT;
use crate::type_mask::SCALE_BIT;
use crate::type_mask::TRANSLATE_BIT;
use vstd::std_specs::cmp::PartialEqSpec;

verus! {

/// How a source rectangle is fitted into a destination rectangle.
#[derive(Clone, Copy, Debug, PartialEq, Eq, Structural)]
pub enum ScaleToFit {
    /// Scale each axis on its own so that the source fills the destination.
    Fill,
    /// Scale uniformly and align to the left and top of the destination.
    Start,
    /// Scale uniformly and centre within the destination.
    Center,
    /// Scale uniformly and align to the right and bottom of the destination.
    End,
}

/// The name of a coefficient; its index is its slot in row-major order.
#[derive(Clone, Copy, Debug, PartialEq, Eq, Structural)]
pub enum Member {
    ScaleX,
    SkewX,
    TransX,
    SkewY,
    ScaleY,
    TransY,
    Persp0,
    Persp1,
    Persp2,
}

/// The name of a coefficient of the six-coefficient affine form; its index is
/// its slot in that form, which is column-major.
#[derive(Clone, Copy, Debug, PartialEq, Eq, Structural)]
pub enum AffineMember {
    ScaleX,
    SkewY,
    SkewX,
    ScaleY,
    TransX,
    TransY,
}

impl Member {
    /// The slot of the coefficient among the nine.
    pub open spec fn spec_index(self) -> int {
        match self {
            Member::ScaleX => 0,
            Member::SkewX => 1,
            Member::TransX => 2,
            Member::SkewY => 3,
            Member::ScaleY => 4,
            Member::TransY => 5,
            Member::Persp0 => 6,
            Member::Persp1 => 7,
            Member::Persp2 => 8,
        }
    }

    pub fn index(self) -> (i: usize)
        ensures
            i == self.spec_index(),
            i < 9,
    {
        match self {
            Member::ScaleX => 0,
            Member::SkewX => 1,
            Member::TransX => 2,
            Member::SkewY => 3,
            Member::ScaleY => 4,
            Member::TransY => 5,
            Member::Persp0 => 6,
            Member::Persp1 => 7,
            Member::Persp2 => 8,
        }
    }
}

impl AffineMember {
    /// The slot of the coefficient in the six-coefficient affine form.
    pub open spec fn spec_index(self) -> int {
        match self {
            AffineMember::ScaleX => 0,
            AffineMember::SkewY => 1,
            AffineMember::SkewX => 2,
            AffineMember::ScaleY => 3,
            AffineMember::TransX => 4,
            AffineMember::TransY => 5,
        }
    }

    /// The same coefficient by its name among the nine.
    pub open spec fn spec_member(self) -> Member {
        match self {
            AffineMember::ScaleX => Member::ScaleX,
            AffineMember::SkewY => Member::SkewY,
            AffineMember::SkewX => Member::SkewX,
            AffineMember::ScaleY => Member::ScaleY,
            AffineMember::TransX => Member::TransX,
            AffineMember::TransY => Member::TransY,
        }
    }

    pub fn index(self) -> (i: usize)
        ensures
            i == self.spec_index(),
            i < 6,
    {
        match self {
            AffineMember::ScaleX => 0,
            AffineMember::SkewY => 1,
            AffineMember::SkewX => 2,
            AffineMember::ScaleY => 3,
            AffineMember::TransX => 4,
            AffineMember::TransY => 5,
        }
    }

    #[verifier::when_used_as_spec(spec_member)]
    pub fn member(self) -> (m: Member)
        ensures
            m == self.spec_member(),
    {
        match self {
            AffineMember::ScaleX => Member::ScaleX,
            AffineMember::SkewY => Member::SkewY,
            AffineMember::SkewX => Member::SkewX,
            AffineMember::ScaleY => Member::ScaleY,
            AffineMember::TransX => Member::TransX,
            AffineMember::TransY => Member::TransY,
        }
    }
}

/// The two orders name the same six coefficients, each once, and only for
/// `ScaleX` and `TransY` do the two slots agree.
pub proof fn lemma_affine_order(a: AffineMember, b: AffineMember)
    ensures
        a.spec_member().spec_index() < 6,
        a.spec_member().spec_index() == 3 * (a.spec_index() % 2) + a.spec_index() / 2,
        a.spec_member() == b.spec_member() ==> a == b,
        a.spec_index() == a.spec_member().spec_index() <==> a == AffineMember::ScaleX || a
            == AffineMember::TransY,
{
}

/// Nine coefficients in row-major order.
pub open spec fn coefficients(
    scale_x: Scalar,
    skew_x: Scalar,
    trans_x: Scalar,
    skew_y: Scalar,
    scale_y: Scalar,
    trans_y: Scalar,
    persp_0: Scalar,
    persp_1: Scalar,
    persp_2: Scalar,
) -> Seq<Scalar> {
    seq![scale_x, skew_x, trans_x, skew_y, scale_y, trans_y, persp_0, persp_1, persp_2]
}

/// The coefficients of the identity.
pub open spec fn identity_coefficients() -> Seq<Scalar> {
    let zero = Scalar { bits: ZERO_BITS };
    let one = Scalar { bits: ONE_BITS };
    coefficients(one, zero, zero, zero, one, zero, zero, zero, one)
}

/// The coefficients of a scale about the origin.
pub open spec fn scale_coefficients(sx: Scalar, sy: Scalar) -> Seq<Scalar> {
    let zero = Scalar { bits: ZERO_BITS };
    let one = Scalar { bits: ONE_BITS };
    coefficients(sx, zero, zero, zero, sy, zero, zero, zero, one)
}

/// The coefficients of a translation.
pub open spec fn translate_coefficients(dx: Scalar, dy: Scalar) -> Seq<Scalar> {
    let zero = Scalar { bits: ZERO_BITS };
    let one = Scalar { bits: ONE_BITS };
    coefficients(one, zero, dx, zero, one, dy, zero, zero, one)
}

/// The coefficients of a scale about the origin followed by a translation.
pub open spec fn scale_translate_coefficients(
    sx: Scalar,
    sy: Scalar,
    tx: Scalar,
    ty: Scalar,
) -> Seq<Scalar> {
    let zero = Scalar { bits: ZERO_BITS };
    let one = Scalar { bits: ONE_BITS };
    coefficients(sx, zero, tx, zero, sy, ty, zero, zero, one)
}

/// The coefficients of the affine transform with the linear part
/// `[[sx, kx], [ky, sy]]` and the translation `(tx, ty)`.
pub open spec fn affine_coefficients(
    sx: Scalar,
    kx: Scalar,
    tx: Scalar,
    ky: Scalar,
    sy: Scalar,
    ty: Scalar,
) -> Seq<Scalar> {
    let zero = Scalar { bits: ZERO_BITS };
    let one = Scalar { bits: ONE_BITS };
    coefficients(sx, kx, tx, ky, sy, ty, zero, zero, one)
}

/// Each coefficient is numerically that of the identity: ones on the
/// diagonal, zeros of either sign elsewhere.
pub open spec fn is_identity_coefficients(c: Seq<Scalar>) -> bool {
    &&& c[0].spec_is_one()
    &&& c[1].spec_is_zero()
    &&& c[2].spec_is_zero()
    &&& c[3].spec_is_zero()
    &&& c[4].spec_is_one()
    &&& c[5].spec_is_zero()
    &&& c[6].spec_is_zero()
    &&& c[7].spec_is_zero()
    &&& c[8].spec_is_one()
}

/// The six-coefficient affine form of nine coefficients: the two columns of
/// the linear part, then the translation.
pub open spec fn affine_form(c: Seq<Scalar>) -> Seq<Scalar> {
    seq![c[0], c[3], c[1], c[4], c[2], c[5]]
}

/// The nine coefficients of the transform with the affine form `a`.
pub open spec fn from_affine_form(a: Seq<Scalar>) -> Seq<Scalar> {
    affine_coefficients(a[0], a[2], a[4], a[1], a[3], a[5])
}

/// The encoding of `2^-26`, the bound under which the perspective term of x
/// is taken for zero.
pub const PERSP_TOLERANCE_BITS: u32 = 0x3280_0000;

/// The perspective term of x lies within `2^-26` of zero.
pub open spec fn fixed_step_class(c: Seq<Scalar>) -> bool {
    &&& (Scalar { bits: PERSP_TOLERANCE_BITS }).spec_neg().num_le(c[6])
    &&& c[6].num_le(Scalar { bits: PERSP_TOLERANCE_BITS })
}

/// The bottom row is anything but `(0, 0, 1)`.
pub open spec fn perspective_class(c: Seq<Scalar>) -> bool {
    !(c[6].spec_is_zero() && c[7].spec_is_zero() && c[8].spec_is_one())
}

/// The transform moves the origin, or must be treated as if it did because it
/// has perspective.
pub open spec fn translate_class(c: Seq<Scalar>) -> bool {
    perspective_class(c) || !(c[2].spec_is_zero() && c[5].spec_is_zero())
}

/// The transform has a skew coefficient, or has perspective.
pub open spec fn affine_class(c: Seq<Scalar>) -> bool {
    perspective_class(c) || !(c[1].spec_is_zero() && c[3].spec_is_zero())
}

/// The transform may scale: a diagonal coefficient is not one, or it is
/// affine, where a skew may scale as well.
pub open spec fn scale_class(c: Seq<Scalar>) -> bool {
    affine_class(c) || !(c[0].spec_is_one() && c[4].spec_is_one())
}

/// The classification bits of nine coefficients.
pub open spec fn classify(c: Seq<Scalar>) -> TypeMask {
    TypeMask {
        bits: ((if translate_class(c) {
            1int
        } else {
            0int
        }) + (if scale_class(c) {
            2int
        } else {
            0int
        }) + (if affine_class(c) {
            4int
        } else {
            0int
        }) + (if perspective_class(c) {
            8int
        } else {
            0int
        })) as u32,
    }
}

/// The transform maps every axis-aligned rectangle to an axis-aligned
/// rectangle: it has no perspective, and either both skews are zero and both
/// scales are not, or both scales are zero and both skews are not.
pub open spec fn keeps_rectangles(c: Seq<Scalar>) -> bool {
    &&& !perspective_class(c)
    &&& if c[1].spec_is_zero() && c[3].spec_is_zero() {
        !c[0].spec_is_zero() && !c[4].spec_is_zero()
    } else {
        c[0].spec_is_zero() && c[4].spec_is_zero() && !c[1].spec_is_zero() && !c[3].spec_is_zero()
    }
}

/// A cached classification that has not been computed.
pub const UNKNOWN_CLASS: u32 = 0x80;

/// The flag kept beside the classification bits for `keeps_rectangles`.
pub const KEEPS_RECTANGLES_FLAG: u32 = 0x10;

/// What the cache holds once it is computed for `c`.
pub open spec fn cached_class(c: Seq<Scalar>) -> u32 {
    (classify(c).bits + if keeps_rectangles(c) {
        KEEPS_RECTANGLES_FLAG
    } else {
        0
    }) as u32
}

/// A transform: nine coefficients and a cache of their classification.
///
/// The cache is either marked as not computed or holds the classification of
/// the coefficients as they are now.
#[derive(Clone, Copy, Debug)]
pub struct Matrix {
    mat: [Scalar; 9],
    class: u32,
}

impl View for Matrix {
    type V = Seq<Scalar>;

    /// The nine coefficients in row-major order.
    closed spec fn view(&self) -> Seq<Scalar> {
        self.mat@
    }
}

impl Matrix {
    #[verifier::type_invariant]
    spec fn cache_is_sound(self) -> bool {
        self.class == UNKNOWN_CLASS || self.class == cached_class(self.mat@)
    }

    /// The cached classification is marked as not computed.
    pub closed spec fn cache_is_dirty(&self) -> bool {
        self.class == UNKNOWN_CLASS
    }

    /// A transform always has nine coefficients.
    pub broadcast proof fn lemma_nine_coefficients(&self)
        ensures
            #[trigger] self@.len() == 9,
    {
    }

    fn compute_class(mat: &[Scalar; 9]) -> (class: u32)
        ensures
            class == cached_class(mat@),
            class != UNKNOWN_CLASS,
    {
        if !(mat[6].is_zero() && mat[7].is_zero() && mat[8].is_one()) {
            return ALL_BITS;
        }
        let translate: u32 = if mat[2].is_zero() && mat[5].is_zero() {
            0
        } else {
            1
        };
        if mat[1].is_zero() && mat[3].is_zero() {
            let scale: u32 = if mat[0].is_one() && mat[4].is_one() {
                0
            } else {
                2
            };
            let keeps: u32 = if !mat[0].is_zero() && !mat[4].is_zero() {
                KEEPS_RECTANGLES_FLAG
            } else {
                0
            };
            translate + scale + keeps
        } else {
            let keeps: u32 = if mat[0].is_zero() && mat[4].is_zero() && !mat[1].is_zero()
                && !mat[3].is_zero() {
                KEEPS_RECTANGLES_FLAG
            } else {
                0
            };
            translate + 6 + keeps
        }
    }

    fn class_bits(&self) -> (class: u32)
        ensures
            class == cached_class(self@),
    {
        proof {
            use_type_invariant(self);
        }
        if self.class == UNKNOWN_CLASS {
            Self::compute_class(&self.mat)
        } else {
            self.class
        }
    }

    /// The identity.
    pub fn new_identity() -> (m: Matrix)
        ensures
            m@ == identity_coefficients(),
            !m.cache_is_dirty(),
    {
        let zero = Scalar::zero();
        let one = Scalar::one();
        let mat = [one, zero, zero, zero, one, zero, zero, zero, one];
        assert(mat@ =~= identity_coefficients());
        Matrix { mat, class: KEEPS_RECTANGLES_FLAG }
    }

    fn with_coefficients(mat: [Scalar; 9]) -> (m: Matrix)
        ensures
            m@ == mat@,
            m.cache_is_dirty(),
    {
        Matrix { mat, class: UNKNOWN_CLASS }
    }

    fn store(&mut self, mat: [Scalar; 9])
        ensures
            final(self)@ == mat@,
            final(self).cache_is_dirty(),
    {
        self.class = UNKNOWN_CLASS;
        self.mat = mat;
    }

    fn write(&mut self, index: usize, v: Scalar)
        requires
            index < 9,
        ensures
            final(self)@ == old(self)@.update(index as int, v),
            final(self).cache_is_dirty(),
    {
        self.class = UNKNOWN_CLASS;
        self.mat[index] = v;
    }

    /// The transform that scales by `scale.0` along x and `scale.1` along y.
    pub fn new_scale(scale: (Scalar, Scalar)) -> (m: Matrix)
        ensures
            m@ == scale_coefficients(scale.0, scale.1),
    {
        let zero = Scalar::zero();
        let mat = [scale.0, zero, zero, zero, scale.1, zero, zero, zero, Scalar::one()];
        assert(mat@ =~= scale_coefficients(scale.0, scale.1));
        Self::with_coefficients(mat)
    }

    /// The transform that moves every point by `d`.
    pub fn new_trans(d: Vector) -> (m: Matrix)
        ensures
            m@ == translate_coefficients(d.x, d.y),
    {
        let zero = Scalar::zero();
        let one = Scalar::one();
        let mat = [one, zero, d.x, zero, one, d.y, zero, zero, one];
        assert(mat@ =~= translate_coefficients(d.x, d.y));
        Self::with_coefficients(mat)
    }

    /// The transform with the nine coefficients given, in row-major order.
    pub fn new_all(
        scale_x: Scalar,
        skew_x: Scalar,
        trans_x: Scalar,
        skew_y: Scalar,
        scale_y: Scalar,
        trans_y: Scalar,
        pers_0: Scalar,
        pers_1: Scalar,
        pers_2: Scalar,
    ) -> (m: Matrix)
        ensures
            m@ == coefficients(
                scale_x,
                skew_x,
                trans_x,
                skew_y,
                scale_y,
                trans_y,
                pers_0,
                pers_1,
                pers_2,
            ),
    {
        let mat = [scale_x, skew_x, trans_x, skew_y, scale_y, trans_y, pers_0, pers_1, pers_2];
        assert(mat@ =~= coefficients(
            scale_x,
            skew_x,
            trans_x,
            skew_y,
            scale_y,
            trans_y,
            pers_0,
            pers_1,
            pers_2,
        ));
        Self::with_coefficients(mat)
    }

    /// The classification of the transform as it is now.
    pub fn get_type(&self) -> (mask: TypeMask)
        ensures
            mask == classify(self@),
    {
        let class = self.class_bits();
        if class >= KEEPS_RECTANGLES_FLAG {
            TypeMask { bits: class - KEEPS_RECTANGLES_FLAG }
        } else {
            TypeMask { bits: class }
        }
    }

    /// The transform is the identity: no classification bit is set.
    pub fn is_identity(&self) -> (r: bool)
        ensures
            r == (classify(self@).bits == 0),
            r == is_identity_coefficients(self@),
    {
        self.class_bits() == KEEPS_RECTANGLES_FLAG
    }

    /// The transform only scales and translates: it neither skews nor has
    /// perspective.
    pub fn is_scale_translate(&self) -> (r: bool)
        ensures
            r == !affine_class(self@),
    {
        let class = self.class_bits();
        class == 0 || class == 1 || class == 2 || class == 3 || class == KEEPS_RECTANGLES_FLAG
            || class == KEEPS_RECTANGLES_FLAG + 1 || class == KEEPS_RECTANGLES_FLAG + 2 || class
            == KEEPS_RECTANGLES_FLAG + 3
    }

    /// The transform at most translates: no bit but the translate bit is set.
    pub fn is_translate(&self) -> (r: bool)
        ensures
            r == !scale_class(self@),
    {
        let mask = self.get_type();
        let rest = mask & TypeMask::translate().not();
        let bits = mask.bits;
        assert(bits <= 0xf ==> ((bits & (!0x1u32 & 0xf) == 0) <==> bits <= 1)) by (bit_vector);
        rest.is_empty()
    }

    /// The transform maps axis-aligned rectangles to axis-aligned rectangles.
    pub fn rect_stays_rect(&self) -> (r: bool)
        ensures
            r == keeps_rectangles(self@),
    {
        self.class_bits() >= KEEPS_RECTANGLES_FLAG
    }

    /// The same as `rect_stays_rect`.
    pub fn preserves_axis_alignment(&self) -> (r: bool)
        ensures
            r == keeps_rectangles(self@),
    {
        self.rect_stays_rect()
    }

    /// The bottom row is not `(0, 0, 1)`.
    pub fn has_perspective(&self) -> (r: bool)
        ensures
            r == perspective_class(self@),
    {
        let mask = self.get_type();
        let bits = mask.bits;
        assert(bits <= 0xf ==> ((bits & 0x8 != 0) <==> bits >= 8)) by (bit_vector);
        mask.intersects(TypeMask::perspective())
    }

    /// The horizontal scale.
    pub fn scale_x(&self) -> (v: Scalar)
        ensures
            v == self@[0],
    {
        self.mat[0]
    }

    /// The older name of `scale_x`.
    pub fn get_scale_x(&self) -> (v: Scalar)
        ensures
            v == self@[0],
    {
        self.scale_x()
    }

    /// The vertical scale.
    pub fn scale_y(&self) -> (v: Scalar)
        ensures
            v == self@[4],
    {
        self.mat[4]
    }

    /// The older name of `scale_y`.
    pub fn get_scale_y(&self) -> (v: Scalar)
        ensures
            v == self@[4],
    {
        self.scale_y()
    }

    /// The vertical skew.
    pub fn skew_y(&self) -> (v: Scalar)
        ensures
            v == self@[3],
    {
        self.mat[3]
    }

    /// The older name of `skew_y`.
    pub fn get_skew_y(&self) -> (v: Scalar)
        ensures
            v == self@[3],
    {
        self.skew_y()
    }

    /// The horizontal skew.
    pub fn skew_x(&self) -> (v: Scalar)
        ensures
            v == self@[1],
    {
        self.mat[1]
    }

    /// The older name of `skew_x`.
    pub fn get_skew_x(&self) -> (v: Scalar)
        ensures
            v == self@[1],
    {
        self.skew_x()
    }

    /// The horizontal translation.
    pub fn translate_x(&self) -> (v: Scalar)
        ensures
            v == self@[2],
    {
        self.mat[2]
    }

    /// The older name of `translate_x`.
    pub fn get_translate_x(&self) -> (v: Scalar)
        ensures
            v == self@[2],
    {
        self.translate_x()
    }

    /// The vertical translation.
    pub fn translate_y(&self) -> (v: Scalar)
        ensures
            v == self@[5],
    {
        self.mat[5]
    }

    /// The older name of `translate_y`.
    pub fn get_translate_y(&self) -> (v: Scalar)
        ensures
            v == self@[5],
    {
        self.translate_y()
    }

    /// The perspective term of x.
    pub fn persp_x(&self) -> (v: Scalar)
        ensures
            v == self@[6],
    {
        self.mat[6]
    }

    /// The older name of `persp_x`.
    pub fn get_persp_x(&self) -> (v: Scalar)
        ensures
            v == self@[6],
    {
        self.persp_x()
    }

    /// The perspective term of y.
    pub fn persp_y(&self) -> (v: Scalar)
        ensures
            v == self@[7],
    {
        self.mat[7]
    }

    /// The older name of `persp_y`.
    pub fn get_persp_y(&self) -> (v: Scalar)
        ensures
            v == self@[7],
    {
        self.persp_y()
    }

    /// The coefficient of the given name.
    pub fn get(&self, member: Member) -> (v: Scalar)
        ensures
            v == self@[member.spec_index()],
    {
        self.mat[member.index()]
    }

    /// The coefficient named by its place in the affine form.
    pub fn get_affine(&self, member: AffineMember) -> (v: Scalar)
        ensures
            v == self@[member.spec_member().spec_index()],
    {
        self.mat[member.member().index()]
    }

    /// The coefficient in the given row-major slot.
    pub fn at(&self, index: usize) -> (v: Scalar)
        requires
            index < 9,
        ensures
            v == self@[index as int],
    {
        self.mat[index]
    }

    /// Replaces the horizontal scale and leaves the classification to be recomputed.
    pub fn set_scale_x(&mut self, v: Scalar) -> (ret: &mut Self)
        ensures
            ret@ == old(self)@.update(0, v),
            ret.cache_is_dirty(),
            *final(self) == *final(ret),
    {
        self.write(0, v);
        self
    }

    /// Replaces the vertical scale and leaves the classification to be recomputed.
    pub fn set_scale_y(&mut self, v: Scalar) -> (ret: &mut Self)
        ensures
            ret@ == old(self)@.update(4, v),
            ret.cache_is_dirty(),
            *final(self) == *final(ret),
    {
        self.write(4, v);
        self
    }

    /// Replaces the vertical skew and leaves the classification to be recomputed.
    pub fn set_skew_y(&mut self, v: Scalar) -> (ret: &mut Self)
        ensures
            ret@ == old(self)@.update(3, v),
            ret.cache_is_dirty(),
            *final(self) == *final(ret),
    {
        self.write(3, v);
        self
    }

    /// Replaces the horizontal skew and leaves the classification to be recomputed.
    pub fn set_skew_x(&mut self, v: Scalar) -> (ret: &mut Self)
        ensures
            ret@ == old(self)@.update(1, v),
            ret.cache_is_dirty(),
            *final(self) == *final(ret),
    {
        self.write(1, v);
        self
    }

    /// Replaces the horizontal translation and leaves the classification to be recomputed.
    pub fn set_translate_x(&mut self, v: Scalar) -> (ret: &mut Self)
        ensures
            ret@ == old(self)@.update(2, v),
            ret.cache_is_dirty(),
            *final(self) == *final(ret),
    {
        self.write(2, v);
        self
    }

    /// Replaces the vertical translation and leaves the classification to be recomputed.
    pub fn set_translate_y(&mut self, v: Scalar) -> (ret: &mut Self)
        ensures
            ret@ == old(self)@.update(5, v),
            ret.cache_is_dirty(),
            *final(self) == *final(ret),
    {
        self.write(5, v);
        self
    }

    /// Replaces the perspective term of x and leaves the classification to be recomputed.
    pub fn set_persp_x(&mut self, v: Scalar) -> (ret: &mut Self)
        ensures
            ret@ == old(self)@.update(6, v),
            ret.cache_is_dirty(),
            *final(self) == *final(ret),
    {
        self.write(6, v);
        self
    }

    /// Replaces the perspective term of y and leaves the classification to be recomputed.
    pub fn set_persp_y(&mut self, v: Scalar) -> (ret: &mut Self)
        ensures
            ret@ == old(self)@.update(7, v),
            ret.cache_is_dirty(),
            *final(self) == *final(ret),
    {
        self.write(7, v);
        self
    }

    /// Replaces the coefficient of the given name and leaves the
    /// classification to be recomputed.
    pub fn set(&mut self, member: Member, v: Scalar) -> (ret: &mut Self)
        ensures
            ret@ == old(self)@.update(member.spec_index(), v),
            ret.cache_is_dirty(),
            *final(self) == *final(ret),
    {
        self.write(member.index(), v);
        self
    }

    /// Replaces the coefficient named by its place in the affine form and
    /// leaves the classification to be recomputed.
    pub fn set_affine_member(&mut self, member: AffineMember, v: Scalar) -> (ret: &mut Self)
        ensures
            ret@ == old(self)@.update(member.spec_member().spec_index(), v),
            ret.cache_is_dirty(),
            *final(self) == *final(ret),
    {
        self.write(member.member().index(), v);
        self
    }

    /// Replaces the coefficient in the given row-major slot and leaves the
    /// classification to be recomputed.
    pub fn set_at(&mut self, index: usize, v: Scalar) -> (ret: &mut Self)
        requires
            index < 9,
        ensures
            ret@ == old(self)@.update(index as int, v),
            ret.cache_is_dirty(),
            *final(self) == *final(ret),
    {
        self.write(index, v);
        self
    }

    /// Replaces all nine coefficients, given in row-major order.
    pub fn set_all(
        &mut self,
        scale_x: Scalar,
        skew_x: Scalar,
        trans_x: Scalar,
        skew_y: Scalar,
        scale_y: Scalar,
        trans_y: Scalar,
        persp_0: Scalar,
        persp_1: Scalar,
        persp_2: Scalar,
    ) -> (ret: &mut Self)
        ensures
            ret@ == coefficients(
                scale_x,
                skew_x,
                trans_x,
                skew_y,
                scale_y,
                trans_y,
                persp_0,
                persp_1,
                persp_2,
            ),
            *final(self) == *final(ret),
    {
        let mat = [scale_x, skew_x, trans_x, skew_y, scale_y, trans_y, persp_0, persp_1, persp_2];
        assert(mat@ =~= coefficients(
            scale_x,
            skew_x,
            trans_x,
            skew_y,
            scale_y,
            trans_y,
            persp_0,
            persp_1,
            persp_2,
        ));
        self.store(mat);
        self
    }

    /// Copies the nine coefficients, in row-major order, into `buffer`.
    pub fn get_9(&self, buffer: &mut [Scalar; 9])
        ensures
            final(buffer)@ == self@,
    {
        *buffer = self.mat;
    }

    /// Replaces all nine coefficients by those of `buffer`, in row-major order.
    pub fn set_9(&mut self, buffer: &[Scalar; 9]) -> (ret: &mut Self)
        ensures
            ret@ == buffer@,
            *final(self) == *final(ret),
    {
        self.store(*buffer);
        self
    }

    /// Makes the transform the identity, with its classification known.
    pub fn reset(&mut self) -> (ret: &mut Self)
        ensures
            ret@ == identity_coefficients(),
            !ret.cache_is_dirty(),
            *final(self) == *final(ret),
    {
        *self = Self::new_identity();
        self
    }

    /// The same as `reset`.
    pub fn set_identity(&mut self) -> (ret: &mut Self)
        ensures
            ret@ == identity_coefficients(),
            !ret.cache_is_dirty(),
            *final(self) == *final(ret),
    {
        *self = Self::new_identity();
        self
    }

    /// Makes the transform the translation by `v`, whatever it was.
    pub fn set_translate(&mut self, v: Vector) -> (ret: &mut Self)
        ensures
            ret@ == translate_coefficients(v.x, v.y),
            *final(self) == *final(ret),
    {
        *self = Self::new_trans(v);
        self
    }

    /// Makes the transform the scale about the origin by `scale.0` along x
    /// and `scale.1` along y, whatever it was.
    pub fn set_scale(&mut self, scale: (Scalar, Scalar)) -> (ret: &mut Self)
        ensures
            ret@ == scale_coefficients(scale.0, scale.1),
            *final(self) == *final(ret),
    {
        *self = Self::new_scale(scale);
        self
    }

    /// Makes the transform the rotation about the origin whose sine and
    /// cosine are `sin_cos.0` and `sin_cos.1`, whatever it was.
    pub fn set_sin_cos(&mut self, sin_cos: (Scalar, Scalar)) -> (ret: &mut Self)
        ensures
            ret@ == affine_coefficients(
                sin_cos.1,
                sin_cos.0.spec_neg(),
                Scalar { bits: ZERO_BITS },
                sin_cos.0,
                sin_cos.1,
                Scalar { bits: ZERO_BITS },
            ),
            *final(self) == *final(ret),
    {
        let zero = Scalar::zero();
        let sin = sin_cos.0;
        let cos = sin_cos.1;
        let mat = [cos, sin.neg(), zero, sin, cos, zero, zero, zero, Scalar::one()];
        assert(mat@ =~= affine_coefficients(cos, sin.spec_neg(), zero, sin, cos, zero));
        self.store(mat);
        self
    }

    /// Makes the transform the rotation, uniform scale and translation that
    /// `rsx_form` describes, whatever it was.
    pub fn set_rsxform(&mut self, rsx_form: &RSXform) -> (ret: &mut Self)
        ensures
            ret@ == affine_coefficients(
                rsx_form.scos,
                rsx_form.ssin.spec_neg(),
                rsx_form.tx,
                rsx_form.ssin,
                rsx_form.scos,
                rsx_form.ty,
            ),
            *final(self) == *final(ret),
    {
        let zero = Scalar::zero();
        let mat = [
            rsx_form.scos,
            rsx_form.ssin.neg(),
            rsx_form.tx,
            rsx_form.ssin,
            rsx_form.scos,
            rsx_form.ty,
            zero,
            zero,
            Scalar::one(),
        ];
        assert(mat@ =~= affine_coefficients(
            rsx_form.scos,
            rsx_form.ssin.spec_neg(),
            rsx_form.tx,
            rsx_form.ssin,
            rsx_form.scos,
            rsx_form.ty,
        ));
        self.store(mat);
        self
    }

    /// Makes the transform the skew about the origin by `skew.0` along x and
    /// `skew.1` along y, whatever it was.
    pub fn set_skew(&mut self, skew: (Scalar, Scalar)) -> (ret: &mut Self)
        ensures
            ret@ == affine_coefficients(
                Scalar { bits: ONE_BITS },
                skew.0,
                Scalar { bits: ZERO_BITS },
                skew.1,
                Scalar { bits: ONE_BITS },
                Scalar { bits: ZERO_BITS },
            ),
            *final(self) == *final(ret),
    {
        let zero = Scalar::zero();
        let one = Scalar::one();
        let mat = [one, skew.0, zero, skew.1, one, zero, zero, zero, one];
        assert(mat@ =~= affine_coefficients(one, skew.0, zero, skew.1, one, zero));
        self.store(mat);
        self
    }

    /// Makes the transform the scale about the origin by `scale` followed by
    /// the translation by `t`, whatever it was.
    pub fn set_scale_translate(&mut self, scale: (Scalar, Scalar), t: Vector) -> (ret: &mut Self)
        ensures
            ret@ == scale_translate_coefficients(scale.0, scale.1, t.x, t.y),
            *final(self) == *final(ret),
    {
        let zero = Scalar::zero();
        let mat = [scale.0, zero, t.x, zero, scale.1, t.y, zero, zero, Scalar::one()];
        assert(mat@ =~= scale_translate_coefficients(scale.0, scale.1, t.x, t.y));
        self.store(mat);
        self
    }

    /// Writes the affine form of the identity into `affine`.
    pub fn set_affine_identity(affine: &mut [Scalar; 6])
        ensures
            final(affine)@ == affine_form(identity_coefficients()),
    {
        let zero = Scalar::zero();
        let one = Scalar::one();
        let identity = [one, zero, zero, one, zero, zero];
        assert(identity@ =~= affine_form(identity_coefficients()));
        *affine = identity;
    }

    /// The six-coefficient affine form, which exists when the transform has
    /// no perspective.
    pub fn to_affine(&self) -> (affine: Option<[Scalar; 6]>)
        ensures
            affine.is_some() == !perspective_class(self@),
            affine.is_some() ==> affine.unwrap()@ == affine_form(self@),
    {
        if self.has_perspective() {
            None
        } else {
            let affine = [
                self.mat[0],
                self.mat[3],
                self.mat[1],
                self.mat[4],
                self.mat[2],
                self.mat[5],
            ];
            assert(affine@ =~= affine_form(self@));
            Some(affine)
        }
    }

    /// The older name of `to_affine`.
    pub fn as_affine(&self) -> (affine: Option<[Scalar; 6]>)
        ensures
            affine.is_some() == !perspective_class(self@),
            affine.is_some() ==> affine.unwrap()@ == affine_form(self@),
    {
        self.to_affine()
    }

    /// Makes the transform the one whose affine form is `affine`, whatever it
    /// was.
    pub fn set_affine(&mut self, affine: &[Scalar; 6]) -> (ret: &mut Self)
        ensures
            ret@ == from_affine_form(affine@),
            *final(self) == *final(ret),
    {
        *self = Self::from_affine(affine);
        self
    }

    /// The transform whose affine form is `affine`.
    pub fn from_affine(affine: &[Scalar; 6]) -> (m: Matrix)
        ensures
            m@ == from_affine_form(affine@),
    {
        let zero = Scalar::zero();
        let mat = [
            affine[0],
            affine[2],
            affine[4],
            affine[1],
            affine[3],
            affine[5],
            zero,
            zero,
            Scalar::one(),
        ];
        assert(mat@ =~= from_affine_form(affine@));
        Self::with_coefficients(mat)
    }

    /// Marks the cached classification as not computed. The coefficients, and
    /// with them every answer the transform gives, stay as they are.
    pub fn dirty_matrix_type_cache(&mut self)
        ensures
            final(self)@ == old(self)@,
            final(self).cache_is_dirty(),
    {
        self.class = UNKNOWN_CLASS;
    }

    /// A step of one along x, at any fixed y, moves the image by one and the
    /// same vector: the perspective term of x is within `2^-26` of zero.
    pub fn is_fixed_step_in_x(&self) -> (r: bool)
        ensures
            r == fixed_step_class(self@),
    {
        !self.mat[6].is_nan() && Scalar::from_bits(PERSP_TOLERANCE_BITS).neg().le(self.mat[6])
            && self.mat[6].le(Scalar::from_bits(PERSP_TOLERANCE_BITS))
    }

    /// The two transforms hold the same nine encodings. Transforms that are
    /// equal by `==` may differ here through the sign of a zero, and a
    /// transform that holds a NaN is equal to itself here and not by `==`.
    pub fn cheap_equal_to(&self, other: &Matrix) -> (r: bool)
        ensures
            r == (self@ == other@),
    {
        let mut i: usize = 0;
        while i < 9
            invariant
                i <= 9,
                forall|j: int| 0 <= j < i ==> self.mat@[j] == other.mat@[j],
            decreases 9 - i,
        {
            if !self.mat[i].same_bits(other.mat[i]) {
                return false;
            }
            i += 1;
        }
        assert(self.mat@ =~= other.mat@);
        true
    }

    /// None of the nine coefficients is an infinity or a NaN.
    pub fn is_finite(&self) -> (r: bool)
        ensures
            r == (forall|j: int| 0 <= j < 9 ==> (#[trigger] self@[j]).spec_is_finite()),
    {
        let mut i: usize = 0;
        while i < 9
            invariant
                i <= 9,
                forall|j: int| 0 <= j < i ==> (#[trigger] self.mat@[j]).spec_is_finite(),
            decreases 9 - i,
        {
            if !self.mat[i].is_finite() {
                assert(!self@[i as int].spec_is_finite());
                return false;
            }
            i += 1;
        }
        true
    }

    /// The identity.
    pub fn i() -> (m: Matrix)
        ensures
            m@ == identity_coefficients(),
            !m.cache_is_dirty(),
    {
        Self::new_identity()
    }

    /// The transform that stands for "no valid transform": each of its nine
    /// coefficients is the largest finite value.
    pub fn invalid_matrix() -> (m: Matrix)
        ensures
            m@ == Seq::new(9, |j: int| Scalar { bits: MAX_BITS }),
    {
        let max = Scalar::max_value();
        let mat = [max, max, max, max, max, max, max, max, max];
        assert(mat@ =~= Seq::new(9, |j: int| Scalar { bits: MAX_BITS }));
        Self::with_coefficients(mat)
    }
}

impl Default for Matrix {
    /// The identity.
    fn default() -> (m: Matrix)
        ensures
            m@ == identity_coefficients(),
    {
        Matrix::new_identity()
    }
}

impl PartialEq for Matrix {
    /// Numeric equality of the nine coefficients, one by one.
    fn eq(&self, other: &Matrix) -> (r: bool) {
        let mut i: usize = 0;
        while i < 9
            invariant
                i <= 9,
                forall|j: int| 0 <= j < i ==> (#[trigger] self.mat@[j]).num_eq(other.mat@[j]),
            decreases 9 - i,
        {
            if !(self.mat[i] == other.mat[i]) {
                assert(!self@[i as int].num_eq(other@[i as int]));
                return false;
            }
            i += 1;
        }
        true
    }
}

impl vstd::std_specs::cmp::PartialEqSpecImpl for Matrix {
    open spec fn obeys_eq_spec() -> bool {
        true
    }

    open spec fn eq_spec(&self, other: &Matrix) -> bool {
        forall|j: int| 0 <= j < 9 ==> (#[trigger] self@[j]).num_eq(other@[j])
    }
}

/// The identity has no classification bit and keeps rectangles.
pub proof fn lemma_identity_class()
    ensures
        classify(identity_coefficients()).bits == 0,
        is_identity_coefficients(identity_coefficients()),
        keeps_rectangles(identity_coefficients()),
{
}

/// No classification bit is set exactly when each coefficient is numerically
/// that of the identity.
pub proof fn lemma_identity_class_iff(c: Seq<Scalar>)
    ensures
        classify(c).bits == 0 <==> is_identity_coefficients(c),
{
}

/// A bottom row other than `(0, 0, 1)` sets the perspective bit and with it
/// every other bit, and the perspective bit is never set otherwise.
pub proof fn lemma_perspective_subsumes(c: Seq<Scalar>)
    ensures
        perspective_class(c) ==> classify(c).bits == ALL_BITS,
        !perspective_class(c) ==> classify(c).bits < PERSPECTIVE_BIT,
        perspective_class(c) ==> !keeps_rectangles(c),
{
}

/// Each bit of the classification answers to its class, and the affine bit is
/// never set without the scale bit.
pub proof fn lemma_class_bits(c: Seq<Scalar>)
    ensures
        classify(c).bits <= ALL_BITS,
        classify(c).spec_contains(TypeMask { bits: TRANSLATE_BIT }) == translate_class(c),
        classify(c).spec_contains(TypeMask { bits: SCALE_BIT }) == scale_class(c),
        classify(c).spec_contains(TypeMask { bits: AFFINE_BIT }) == affine_class(c),
        classify(c).spec_contains(TypeMask { bits: PERSPECTIVE_BIT }) == perspective_class(c),
        affine_class(c) ==> scale_class(c),
{
    let b = classify(c).bits;
    assert(b <= 0xf ==> (b & 0x1 == 0x1 <==> b % 2 == 1)) by (bit_vector);
    assert(b <= 0xf ==> (b & 0x2 == 0x2 <==> (b / 2) % 2 == 1)) by (bit_vector);
    assert(b <= 0xf ==> (b & 0x4 == 0x4 <==> (b / 4) % 2 == 1)) by (bit_vector);
    assert(b <= 0xf ==> (b & 0x8 == 0x8 <==> b / 8 == 1)) by (bit_vector);
}

/// A translation has the translate bit alone, and not even that when it moves
/// nothing.
pub proof fn lemma_translate_class(dx: Scalar, dy: Scalar)
    ensures
        classify(translate_coefficients(dx, dy)).bits == if dx.spec_is_zero() && dy.spec_is_zero() {
            0
        } else {
            TRANSLATE_BIT
        },
        keeps_rectangles(translate_coefficients(dx, dy)),
{
}

/// A scale about the origin has the scale bit alone, and not even that when
/// both factors are one. It keeps rectangles unless a factor is zero.
pub proof fn lemma_scale_class(sx: Scalar, sy: Scalar)
    ensures
        classify(scale_coefficients(sx, sy)).bits == if sx.spec_is_one() && sy.spec_is_one() {
            0
        } else {
            SCALE_BIT
        },
        keeps_rectangles(scale_coefficients(sx, sy)) == (!sx.spec_is_zero() && !sy.spec_is_zero()),
{
}

/// A scale followed by a translation never has the affine or the perspective
/// bit.
pub proof fn lemma_scale_translate_class(sx: Scalar, sy: Scalar, tx: Scalar, ty: Scalar)
    ensures
        !affine_class(scale_translate_coefficients(sx, sy, tx, ty)),
        classify(scale_translate_coefficients(sx, sy, tx, ty)).bits == (if tx.spec_is_zero()
            && ty.spec_is_zero() {
            0int
        } else {
            1int
        }) + (if sx.spec_is_one() && sy.spec_is_one() {
            0int
        } else {
            2int
        }),
{
}

/// A transform with a skew that is not zero has the affine and the scale bit,
/// and keeps rectangles only if it swaps the axes: both scales zero and both
/// skews not.
pub proof fn lemma_affine_class(c: Seq<Scalar>)
    requires
        !perspective_class(c),
        !c[1].spec_is_zero() || !c[3].spec_is_zero(),
    ensures
        classify(c).bits == AFFINE_BIT + SCALE_BIT + if translate_class(c) {
            TRANSLATE_BIT
        } else {
            0
        },
        keeps_rectangles(c) == (c[0].spec_is_zero() && c[4].spec_is_zero() && !c[1].spec_is_zero()
            && !c[3].spec_is_zero()),
{
}

/// Transforms that are equal coefficient by coefficient are classified alike.
pub proof fn lemma_equal_transforms_classify_alike(a: Matrix, b: Matrix)
    requires
        a.eq_spec(&b),
    ensures
        classify(a@) == classify(b@),
        keeps_rectangles(a@) == keeps_rectangles(b@),
{
    a.lemma_nine_coefficients();
    b.lemma_nine_coefficients();
    assert forall|j: int| 0 <= j < 9 implies (#[trigger] a@[j]).spec_is_zero()
        == b@[j].spec_is_zero() && a@[j].spec_is_one() == b@[j].spec_is_one() by {
        assert(a@[j].num_eq(b@[j]));
    }
}

/// Transforms that hold the same encodings, none of them a NaN, are equal.
pub proof fn lemma_same_encodings_equal(a: Matrix, b: Matrix)
    requires
        a@ == b@,
        forall|j: int| 0 <= j < 9 ==> !(#[trigger] a@[j]).spec_is_nan(),
    ensures
        a.eq_spec(&b),
{
}

/// The affine form loses nothing of a transform without perspective but the
/// signs of the zeros in its bottom row, and every six coefficients are the
/// affine form of the transform made from them.
pub proof fn lemma_affine_form_round_trip(c: Seq<Scalar>, a: Seq<Scalar>)
    requires
        c.len() == 9,
        a.len() == 6,
    ensures
        affine_form(from_affine_form(a)) == a,
        !perspective_class(from_affine_form(a)),
        !perspective_class(c) ==> forall|j: int|
            0 <= j < 9 ==> (#[trigger] from_affine_form(affine_form(c))[j]).num_eq(c[j])
                || c[j].spec_is_nan(),
        forall|j: int| 0 <= j < 6 ==> #[trigger] from_affine_form(affine_form(c))[j] == c[j],
{
    assert(affine_form(from_affine_form(a)) =~= a);
}

} // verus!
