//! Colours: a packed 32-bit ARGB value, its three opaque components, and
//! component-wise forms whose channels are exact encodings.
use vstd::prelude::*;
use crate::scalar::Scalar;
use crate::scalar::ONE_BITS;
use crate::scalar::ZERO_BITS;

verus! {

/// The packed value of four components: alpha in the top byte, then red,
/// green and blue.
pub open spec fn pack_argb(a: u8, r: u8, g: u8, b: u8) -> u32 {
    (a as int * 0x100_0000 + r as int * 0x1_0000 + g as int * 0x100 + b as int) as u32
}

/// A colour with alpha, packed as `0xAARRGGBB`.
#[derive(Clone, Copy, Debug, PartialEq, Eq, Structural)]
pub struct Color(pub u32);

/// The three components of an opaque colour.
#[derive(Clone, Copy, Debug, PartialEq, Eq, Structural)]
pub struct RGB {
    pub r: u8,
    pub g: u8,
    pub b: u8,
}

/// Hue, saturation and value.
#[derive(Clone, Copy, Debug)]
pub struct HSV {
    pub h: Scalar,
    pub s: Scalar,
    pub v: Scalar,
}

/// A colour by four components, each nominally between zero and one.
#[derive(Clone, Copy, Debug)]
pub struct Color4f {
    pub r: Scalar,
    pub g: Scalar,
    pub b: Scalar,
    pub a: Scalar,
}

impl Color {
    pub open spec fn spec_a(self) -> u8 {
        (self.0 / 0x100_0000) as u8
    }

    pub open spec fn spec_r(self) -> u8 {
        ((self.0 / 0x1_0000) % 0x100) as u8
    }

    pub open spec fn spec_g(self) -> u8 {
        ((self.0 / 0x100) % 0x100) as u8
    }

    pub open spec fn spec_b(self) -> u8 {
        (self.0 % 0x100) as u8
    }

    /// Packs four components.
    pub fn from_argb(a: u8, r: u8, g: u8, b: u8) -> (c: Color)
        ensures
            c.0 == pack_argb(a, r, g, b),
            c.spec_a() == a,
            c.spec_r() == r,
            c.spec_g() == g,
            c.spec_b() == b,
    {
        assert((a as u32) << 24 | (r as u32) << 16 | (g as u32) << 8 | (b as u32) == (a as u32)
            * 0x100_0000 + (r as u32) * 0x1_0000 + (g as u32) * 0x100 + (b as u32))
            by (bit_vector);
        Color((a as u32) << 24 | (r as u32) << 16 | (g as u32) << 8 | (b as u32))
    }

    /// Packs three components under full alpha.
    pub fn from_rgb(r: u8, g: u8, b: u8) -> (c: Color)
        ensures
            c.0 == pack_argb(0xff, r, g, b),
            c.spec_a() == 0xff,
            c.spec_r() == r,
            c.spec_g() == g,
            c.spec_b() == b,
    {
        Self::from_argb(0xff, r, g, b)
    }

    /// The alpha component.
    #[verifier::when_used_as_spec(spec_a)]
    pub fn a(self) -> (v: u8)
        ensures
            v == self.spec_a(),
    {
        let x: u32 = self.0;
        assert((x >> 24) == x / 0x100_0000 && (x >> 24) < 0x100) by (bit_vector);
        (x >> 24) as u8
    }

    /// The red component.
    #[verifier::when_used_as_spec(spec_r)]
    pub fn r(self) -> (v: u8)
        ensures
            v == self.spec_r(),
    {
        let x: u32 = self.0;
        assert(((x >> 16) & 0xff) == (x / 0x1_0000) % 0x100 && ((x >> 16) & 0xff) < 0x100)
            by (bit_vector);
        ((x >> 16) & 0xff) as u8
    }

    /// The green component.
    #[verifier::when_used_as_spec(spec_g)]
    pub fn g(self) -> (v: u8)
        ensures
            v == self.spec_g(),
    {
        let x: u32 = self.0;
        assert(((x >> 8) & 0xff) == (x / 0x100) % 0x100 && ((x >> 8) & 0xff) < 0x100)
            by (bit_vector);
        ((x >> 8) & 0xff) as u8
    }

    /// The blue component.
    #[verifier::when_used_as_spec(spec_b)]
    pub fn b(self) -> (v: u8)
        ensures
            v == self.spec_b(),
    {
        let x: u32 = self.0;
        assert((x & 0xff) == x % 0x100 && (x & 0xff) < 0x100) by (bit_vector);
        (x & 0xff) as u8
    }

    /// The same colour with the alpha component replaced.
    pub fn with_a(self, a: u8) -> (c: Color)
        ensures
            c.0 == pack_argb(a, self.spec_r(), self.spec_g(), self.spec_b()),
            c.spec_a() == a,
            c.spec_r() == self.spec_r(),
            c.spec_g() == self.spec_g(),
            c.spec_b() == self.spec_b(),
    {
        Self::from_argb(a, self.r(), self.g(), self.b())
    }

    /// The colour without its alpha component.
    pub fn to_rgb(self) -> (rgb: RGB)
        ensures
            rgb == (RGB { r: self.spec_r(), g: self.spec_g(), b: self.spec_b() }),
    {
        RGB { r: self.r(), g: self.g(), b: self.b() }
    }

    pub fn transparent() -> (c: Color)
        ensures
            c.0 == 0x0000_0000,
    {
        Color(0x0000_0000)
    }

    pub fn black() -> (c: Color)
        ensures
            c.0 == 0xff00_0000,
    {
        Color(0xff00_0000)
    }

    pub fn dark_gray() -> (c: Color)
        ensures
            c.0 == 0xff44_4444,
    {
        Color(0xff44_4444)
    }

    /// The same value as `light_gray`.
    pub fn gray() -> (c: Color)
        ensures
            c.0 == 0xffcc_cccc,
    {
        Color(0xffcc_cccc)
    }

    pub fn light_gray() -> (c: Color)
        ensures
            c.0 == 0xffcc_cccc,
    {
        Color(0xffcc_cccc)
    }

    pub fn white() -> (c: Color)
        ensures
            c.0 == 0xffff_ffff,
    {
        Color(0xffff_ffff)
    }

    pub fn red() -> (c: Color)
        ensures
            c.0 == 0xffff_0000,
    {
        Color(0xffff_0000)
    }

    pub fn green() -> (c: Color)
        ensures
            c.0 == 0xff00_ff00,
    {
        Color(0xff00_ff00)
    }

    pub fn blue() -> (c: Color)
        ensures
            c.0 == 0xff00_00ff,
    {
        Color(0xff00_00ff)
    }

    pub fn yellow() -> (c: Color)
        ensures
            c.0 == 0xffff_ff00,
    {
        Color(0xffff_ff00)
    }

    pub fn cyan() -> (c: Color)
        ensures
            c.0 == 0xff00_ffff,
    {
        Color(0xff00_ffff)
    }

    pub fn magenta() -> (c: Color)
        ensures
            c.0 == 0xffff_00ff,
    {
        Color(0xffff_00ff)
    }
}

impl From<u32> for Color {
    fn from(c: u32) -> (r: Color) {
        Color(c)
    }
}

impl vstd::std_specs::convert::FromSpecImpl<u32> for Color {
    open spec fn obeys_from_spec() -> bool {
        true
    }

    open spec fn from_spec(c: u32) -> Color {
        Color(c)
    }
}

impl From<RGB> for Color {
    /// The opaque colour of three components.
    fn from(rgb: RGB) -> (r: Color) {
        Color::from_rgb(rgb.r, rgb.g, rgb.b)
    }
}

impl vstd::std_specs::convert::FromSpecImpl<RGB> for Color {
    open spec fn obeys_from_spec() -> bool {
        true
    }

    open spec fn from_spec(rgb: RGB) -> Color {
        Color(pack_argb(0xff, rgb.r, rgb.g, rgb.b))
    }
}

impl From<(u8, u8, u8)> for RGB {
    fn from(rgb: (u8, u8, u8)) -> (r: RGB) {
        RGB { r: rgb.0, g: rgb.1, b: rgb.2 }
    }
}

impl vstd::std_specs::convert::FromSpecImpl<(u8, u8, u8)> for RGB {
    open spec fn obeys_from_spec() -> bool {
        true
    }

    open spec fn from_spec(rgb: (u8, u8, u8)) -> RGB {
        RGB { r: rgb.0, g: rgb.1, b: rgb.2 }
    }
}

impl From<(Scalar, Scalar, Scalar)> for HSV {
    fn from(hsv: (Scalar, Scalar, Scalar)) -> (r: HSV) {
        HSV { h: hsv.0, s: hsv.1, v: hsv.2 }
    }
}

impl vstd::std_specs::convert::FromSpecImpl<(Scalar, Scalar, Scalar)> for HSV {
    open spec fn obeys_from_spec() -> bool {
        true
    }

    open spec fn from_spec(hsv: (Scalar, Scalar, Scalar)) -> HSV {
        HSV { h: hsv.0, s: hsv.1, v: hsv.2 }
    }
}

impl core::ops::BitOr for Color {
    type Output = Color;

    fn bitor(self, rhs: Color) -> (r: Color) {
        Color(self.0 | rhs.0)
    }
}

impl vstd::std_specs::ops::BitOrSpecImpl for Color {
    open spec fn obeys_bitor_spec() -> bool {
        true
    }

    open spec fn bitor_req(self, rhs: Color) -> bool {
        true
    }

    open spec fn bitor_spec(self, rhs: Color) -> Color {
        Color(self.0 | rhs.0)
    }
}

impl core::ops::BitAnd for Color {
    type Output = Color;

    fn bitand(self, rhs: Color) -> (r: Color) {
        Color(self.0 & rhs.0)
    }
}

impl vstd::std_specs::ops::BitAndSpecImpl for Color {
    open spec fn obeys_bitand_spec() -> bool {
        true
    }

    open spec fn bitand_req(self, rhs: Color) -> bool {
        true
    }

    open spec fn bitand_spec(self, rhs: Color) -> Color {
        Color(self.0 & rhs.0)
    }
}

impl core::ops::BitOr<u32> for Color {
    type Output = Color;

    fn bitor(self, rhs: u32) -> (r: Color) {
        Color(self.0 | rhs)
    }
}

impl vstd::std_specs::ops::BitOrSpecImpl<u32> for Color {
    open spec fn obeys_bitor_spec() -> bool {
        true
    }

    open spec fn bitor_req(self, rhs: u32) -> bool {
        true
    }

    open spec fn bitor_spec(self, rhs: u32) -> Color {
        Color(self.0 | rhs)
    }
}

impl core::ops::BitAnd<u32> for Color {
    type Output = Color;

    fn bitand(self, rhs: u32) -> (r: Color) {
        Color(self.0 & rhs)
    }
}

impl vstd::std_specs::ops::BitAndSpecImpl<u32> for Color {
    open spec fn obeys_bitand_spec() -> bool {
        true
    }

    open spec fn bitand_req(self, rhs: u32) -> bool {
        true
    }

    open spec fn bitand_spec(self, rhs: u32) -> Color {
        Color(self.0 & rhs)
    }
}

impl Color4f {
    /// The four components in the order red, green, blue, alpha.
    pub open spec fn spec_components(self) -> Seq<Scalar> {
        seq![self.r, self.g, self.b, self.a]
    }

    /// The four components in the order red, green, blue, alpha.
    pub fn as_array(&self) -> (v: [Scalar; 4])
        ensures
            v@ == self.spec_components(),
    {
        let v = [self.r, self.g, self.b, self.a];
        assert(v@ =~= self.spec_components());
        v
    }

    /// The component at `index` in the order red, green, blue, alpha.
    pub fn get(&self, index: usize) -> (v: Scalar)
        requires
            index < 4,
        ensures
            v == self.spec_components()[index as int],
    {
        match index {
            0 => self.r,
            1 => self.g,
            2 => self.b,
            _ => self.a,
        }
    }

    /// Replaces the component at `index` in the order red, green, blue,
    /// alpha.
    pub fn set(&mut self, index: usize, v: Scalar)
        requires
            index < 4,
        ensures
            final(self).spec_components() == old(self).spec_components().update(index as int, v),
    {
        match index {
            0 => {
                self.r = v;
            },
            1 => {
                self.g = v;
            },
            2 => {
                self.b = v;
            },
            _ => {
                self.a = v;
            },
        }
        assert(self.spec_components() =~= old(self).spec_components().update(index as int, v));
    }

    /// Alpha is numerically one.
    pub fn is_opaque(&self) -> (r: bool)
        ensures
            r == self.a.num_eq(Scalar { bits: ONE_BITS }),
    {
        self.a == Scalar::one()
    }

    /// `c` lies between zero and one, both included.
    pub open spec fn in_unit_range(c: Scalar) -> bool {
        (Scalar { bits: ZERO_BITS }).num_le(c) && c.num_le(Scalar { bits: ONE_BITS })
    }

    /// Red, green and blue each lie between zero and one, so that the colour
    /// can be packed into bytes without clamping. Alpha must lie in that
    /// range to begin with.
    pub fn fits_in_bytes(&self) -> (r: bool)
        requires
            Self::in_unit_range(self.a),
        ensures
            r == (Self::in_unit_range(self.r) && Self::in_unit_range(self.g)
                && Self::in_unit_range(self.b)),
    {
        let zero = Scalar::zero();
        let one = Scalar::one();
        zero.le(self.r) && self.r.le(one) && zero.le(self.g) && self.g.le(one) && zero.le(self.b)
            && self.b.le(one)
    }

    /// The same colour with alpha one.
    pub fn to_opaque(&self) -> (c: Color4f)
        ensures
            c == (Color4f { r: self.r, g: self.g, b: self.b, a: Scalar { bits: ONE_BITS } }),
    {
        Color4f { r: self.r, g: self.g, b: self.b, a: Scalar::one() }
    }
}

/// Packing and taking apart are inverse to each other.
pub proof fn lemma_pack_unpack(c: Color, a: u8, r: u8, g: u8, b: u8)
    ensures
        pack_argb(c.spec_a(), c.spec_r(), c.spec_g(), c.spec_b()) == c.0,
        Color(pack_argb(a, r, g, b)).spec_a() == a,
        Color(pack_argb(a, r, g, b)).spec_r() == r,
        Color(pack_argb(a, r, g, b)).spec_g() == g,
        Color(pack_argb(a, r, g, b)).spec_b() == b,
{
}

} // verus!
