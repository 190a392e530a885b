//! Font styles: a weight, a width and a slant.
use vstd::prelude::*;

verus! {

/// The weight of the thinnest style, which draws nothing.
pub const WEIGHT_MIN: i32 = 0;

/// The weight of the heaviest style.
pub const WEIGHT_MAX: i32 = 1000;

/// The width of the most condensed style.
pub const WIDTH_MIN: i32 = 1;

/// The width of the most expanded style.
pub const WIDTH_MAX: i32 = 9;

/// `v` brought into the range from `lo` to `hi`.
pub open spec fn pin(v: int, lo: int, hi: int) -> int {
    if v < lo {
        lo
    } else if v > hi {
        hi
    } else {
        v
    }
}

/// A font weight. Any number can be held; a style keeps weights between
/// `WEIGHT_MIN` and `WEIGHT_MAX`.
#[derive(Clone, Copy, Debug, PartialEq, Eq, PartialOrd, Structural)]
pub struct Weight(i32);

/// A font width. Any number can be held; a style keeps widths between
/// `WIDTH_MIN` and `WIDTH_MAX`.
#[derive(Clone, Copy, Debug, PartialEq, Eq, PartialOrd, Structural)]
pub struct Width(i32);

/// The slant of a font.
#[derive(Clone, Copy, Debug, PartialEq, Eq, Structural)]
pub enum Slant {
    Upright,
    Italic,
    Oblique,
}

impl View for Weight {
    type V = i32;

    closed spec fn view(&self) -> i32 {
        self.0
    }
}

impl View for Width {
    type V = i32;

    closed spec fn view(&self) -> i32 {
        self.0
    }
}

impl From<i32> for Weight {
    fn from(weight: i32) -> (w: Weight)
        ensures
            w@ == weight,
    {
        Weight(weight)
    }
}

impl vstd::std_specs::convert::FromSpecImpl<i32> for Weight {
    open spec fn obeys_from_spec() -> bool {
        true
    }

    closed spec fn from_spec(weight: i32) -> Weight {
        Weight(weight)
    }
}

impl core::ops::Deref for Weight {
    type Target = i32;

    fn deref(&self) -> (v: &i32)
        ensures
            *v == self@,
    {
        &self.0
    }
}

impl From<i32> for Width {
    fn from(width: i32) -> (w: Width)
        ensures
            w@ == width,
    {
        Width(width)
    }
}

impl vstd::std_specs::convert::FromSpecImpl<i32> for Width {
    open spec fn obeys_from_spec() -> bool {
        true
    }

    closed spec fn from_spec(width: i32) -> Width {
        Width(width)
    }
}

impl core::ops::Deref for Width {
    type Target = i32;

    fn deref(&self) -> (v: &i32)
        ensures
            *v == self@,
    {
        &self.0
    }
}

impl Weight {
    pub fn invisible() -> (w: Weight)
        ensures
            w@ == 0,
    {
        Weight(0)
    }

    pub fn thin() -> (w: Weight)
        ensures
            w@ == 100,
    {
        Weight(100)
    }

    pub fn extra_light() -> (w: Weight)
        ensures
            w@ == 200,
    {
        Weight(200)
    }

    pub fn light() -> (w: Weight)
        ensures
            w@ == 300,
    {
        Weight(300)
    }

    pub fn normal() -> (w: Weight)
        ensures
            w@ == 400,
    {
        Weight(400)
    }

    pub fn medium() -> (w: Weight)
        ensures
            w@ == 500,
    {
        Weight(500)
    }

    pub fn semi_bold() -> (w: Weight)
        ensures
            w@ == 600,
    {
        Weight(600)
    }

    pub fn bold() -> (w: Weight)
        ensures
            w@ == 700,
    {
        Weight(700)
    }

    pub fn extra_bold() -> (w: Weight)
        ensures
            w@ == 800,
    {
        Weight(800)
    }

    pub fn black() -> (w: Weight)
        ensures
            w@ == 900,
    {
        Weight(900)
    }

    pub fn extra_black() -> (w: Weight)
        ensures
            w@ == 1000,
    {
        Weight(1000)
    }
}

impl Width {
    pub fn ultra_condensed() -> (w: Width)
        ensures
            w@ == 1,
    {
        Width(1)
    }

    pub fn extra_condensed() -> (w: Width)
        ensures
            w@ == 2,
    {
        Width(2)
    }

    pub fn condensed() -> (w: Width)
        ensures
            w@ == 3,
    {
        Width(3)
    }

    pub fn semi_condensed() -> (w: Width)
        ensures
            w@ == 4,
    {
        Width(4)
    }

    pub fn normal() -> (w: Width)
        ensures
            w@ == 5,
    {
        Width(5)
    }

    pub fn semi_expanded() -> (w: Width)
        ensures
            w@ == 6,
    {
        Width(6)
    }

    pub fn expanded() -> (w: Width)
        ensures
            w@ == 7,
    {
        Width(7)
    }

    pub fn extra_expanded() -> (w: Width)
        ensures
            w@ == 8,
    {
        Width(8)
    }

    pub fn ultra_expanded() -> (w: Width)
        ensures
            w@ == 9,
    {
        Width(9)
    }
}

/// A weight, a width and a slant, the first two within their ranges.
#[derive(Clone, Copy, Debug, PartialEq, Eq, Structural)]
pub struct FontStyle {
    weight: Weight,
    width: Width,
    slant: Slant,
}

impl FontStyle {
    #[verifier::type_invariant]
    spec fn in_range(self) -> bool {
        &&& WEIGHT_MIN <= self.weight@ <= WEIGHT_MAX
        &&& WIDTH_MIN <= self.width@ <= WIDTH_MAX
    }

    pub closed spec fn spec_weight(self) -> Weight {
        self.weight
    }

    pub closed spec fn spec_width(self) -> Width {
        self.width
    }

    pub closed spec fn spec_slant(self) -> Slant {
        self.slant
    }

    /// A style is determined by its three parts.
    pub proof fn lemma_determined_by_parts(self, other: FontStyle)
        ensures
            self == other <==> self.spec_weight() == other.spec_weight() && self.spec_width()
                == other.spec_width() && self.spec_slant() == other.spec_slant(),
    {
    }

    /// The style of the given parts, with the weight and the width brought
    /// into their ranges.
    pub fn new(weight: Weight, width: Width, slant: Slant) -> (s: FontStyle)
        ensures
            s.spec_weight()@ == pin(weight@ as int, WEIGHT_MIN as int, WEIGHT_MAX as int),
            s.spec_width()@ == pin(width@ as int, WIDTH_MIN as int, WIDTH_MAX as int),
            s.spec_slant() == slant,
    {
        let w: i32 = if weight.0 < WEIGHT_MIN {
            WEIGHT_MIN
        } else if weight.0 > WEIGHT_MAX {
            WEIGHT_MAX
        } else {
            weight.0
        };
        let d: i32 = if width.0 < WIDTH_MIN {
            WIDTH_MIN
        } else if width.0 > WIDTH_MAX {
            WIDTH_MAX
        } else {
            width.0
        };
        FontStyle { weight: Weight(w), width: Width(d), slant }
    }

    #[verifier::when_used_as_spec(spec_weight)]
    pub fn weight(self) -> (w: Weight)
        ensures
            w == self.spec_weight(),
            WEIGHT_MIN <= w@ <= WEIGHT_MAX,
    {
        proof {
            use_type_invariant(self);
        }
        self.weight
    }

    #[verifier::when_used_as_spec(spec_width)]
    pub fn width(self) -> (w: Width)
        ensures
            w == self.spec_width(),
            WIDTH_MIN <= w@ <= WIDTH_MAX,
    {
        proof {
            use_type_invariant(self);
        }
        self.width
    }

    #[verifier::when_used_as_spec(spec_slant)]
    pub fn slant(self) -> (s: Slant)
        ensures
            s == self.spec_slant(),
    {
        self.slant
    }

    /// Normal weight, normal width, upright.
    pub fn normal() -> (s: FontStyle)
        ensures
            s.spec_weight()@ == 400,
            s.spec_width()@ == 5,
            s.spec_slant() == Slant::Upright,
    {
        FontStyle::new(Weight::normal(), Width::normal(), Slant::Upright)
    }

    /// Bold weight, normal width, upright.
    pub fn bold() -> (s: FontStyle)
        ensures
            s.spec_weight()@ == 700,
            s.spec_width()@ == 5,
            s.spec_slant() == Slant::Upright,
    {
        FontStyle::new(Weight::bold(), Width::normal(), Slant::Upright)
    }

    /// Normal weight, normal width, italic.
    pub fn italic() -> (s: FontStyle)
        ensures
            s.spec_weight()@ == 400,
            s.spec_width()@ == 5,
            s.spec_slant() == Slant::Italic,
    {
        FontStyle::new(Weight::normal(), Width::normal(), Slant::Italic)
    }

    /// Bold weight, normal width, italic.
    pub fn bold_italic() -> (s: FontStyle)
        ensures
            s.spec_weight()@ == 700,
            s.spec_width()@ == 5,
            s.spec_slant() == Slant::Italic,
    {
        FontStyle::new(Weight::bold(), Width::normal(), Slant::Italic)
    }
}

impl Default for FontStyle {
    /// The normal style.
    fn default() -> (s: FontStyle)
        ensures
            s.spec_weight()@ == 400,
            s.spec_width()@ == 5,
            s.spec_slant() == Slant::Upright,
    {
        FontStyle::normal()
    }
}

/// A weight and a width that a style hands out are kept by a style made of
/// them: making a style of the parts of a style changes nothing.
pub proof fn lemma_pin_idempotent(v: int, lo: int, hi: int)
    requires
        lo <= hi,
    ensures
        lo <= pin(v, lo, hi) <= hi,
        pin(pin(v, lo, hi), lo, hi) == pin(v, lo, hi),
        lo <= v <= hi ==> pin(v, lo, hi) == v,
{
}

} // verus!
