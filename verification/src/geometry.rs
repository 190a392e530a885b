//! Plain numeric aggregates that transforms are applied to.
use vstd::prelude::*;
use crate::scalar::Scalar;

verus! {

/// A position `(x, y)`.
#[derive(Clone, Copy, Debug)]
pub struct Point {
    pub x: Scalar,
    pub y: Scalar,
}

/// A displacement `(x, y)`.
pub type Vector = Point;

/// A homogeneous position `(x, y, z)`.
#[derive(Clone, Copy, Debug)]
pub struct Point3 {
    pub x: Scalar,
    pub y: Scalar,
    pub z: Scalar,
}

/// An extent `(width, height)`.
#[derive(Clone, Copy, Debug)]
pub struct Size {
    pub width: Scalar,
    pub height: Scalar,
}

/// An axis-aligned rectangle given by its four edges.
#[derive(Clone, Copy, Debug)]
pub struct Rect {
    pub left: Scalar,
    pub top: Scalar,
    pub right: Scalar,
    pub bottom: Scalar,
}

/// A rotation with uniform scale, given by its scaled cosine and sine, and a
/// translation.
#[derive(Clone, Copy, Debug)]
pub struct RSXform {
    pub scos: Scalar,
    pub ssin: Scalar,
    pub tx: Scalar,
    pub ty: Scalar,
}

impl Point {
    pub fn new(x: Scalar, y: Scalar) -> (p: Point)
        ensures
            p == (Point { x, y }),
    {
        Point { x, y }
    }
}

impl Point {
    /// A coordinate of the point is a NaN.
    pub open spec fn spec_has_nan(self) -> bool {
        self.x.spec_is_nan() || self.y.spec_is_nan()
    }

    #[verifier::when_used_as_spec(spec_has_nan)]
    pub fn has_nan(self) -> (r: bool)
        ensures
            r == self.spec_has_nan(),
    {
        self.x.is_nan() || self.y.is_nan()
    }
}

impl From<(Scalar, Scalar)> for Point {
    fn from(xy: (Scalar, Scalar)) -> (p: Point) {
        Point { x: xy.0, y: xy.1 }
    }
}

impl vstd::std_specs::convert::FromSpecImpl<(Scalar, Scalar)> for Point {
    open spec fn obeys_from_spec() -> bool {
        true
    }

    open spec fn from_spec(xy: (Scalar, Scalar)) -> Point {
        Point { x: xy.0, y: xy.1 }
    }
}

impl Point3 {
    pub fn new(x: Scalar, y: Scalar, z: Scalar) -> (p: Point3)
        ensures
            p == (Point3 { x, y, z }),
    {
        Point3 { x, y, z }
    }
}

impl Size {
    pub fn new(width: Scalar, height: Scalar) -> (s: Size)
        ensures
            s == (Size { width, height }),
    {
        Size { width, height }
    }
}

impl RSXform {
    pub fn new(scos: Scalar, ssin: Scalar, tx: Scalar, ty: Scalar) -> (x: RSXform)
        ensures
            x == (RSXform { scos, ssin, tx, ty }),
    {
        RSXform { scos, ssin, tx, ty }
    }
}

impl Rect {
    pub fn new(left: Scalar, top: Scalar, right: Scalar, bottom: Scalar) -> (r: Rect)
        ensures
            r == (Rect { left, top, right, bottom }),
    {
        Rect { left, top, right, bottom }
    }

    /// Some coordinate of the four points is a NaN.
    pub open spec fn quad_has_nan(quad: Seq<Point>) -> bool {
        exists|i: int| 0 <= i < 4 && (#[trigger] quad[i]).spec_has_nan()
    }

    /// The bounding box of four points: each edge is the smallest or the
    /// largest coordinate, taken in the order of the points.
    pub open spec fn spec_bounds_of_quad(quad: Seq<Point>) -> Rect {
        Rect {
            left: quad[0].x.spec_min(quad[1].x).spec_min(quad[2].x).spec_min(quad[3].x),
            top: quad[0].y.spec_min(quad[1].y).spec_min(quad[2].y).spec_min(quad[3].y),
            right: quad[0].x.spec_max(quad[1].x).spec_max(quad[2].x).spec_max(quad[3].x),
            bottom: quad[0].y.spec_max(quad[1].y).spec_max(quad[2].y).spec_max(quad[3].y),
        }
    }

    /// The smallest rectangle that holds the four points, or nothing when a
    /// coordinate is a NaN, which no rectangle holds.
    pub fn bounds_of_quad(quad: &[Point; 4]) -> (r: Option<Rect>)
        ensures
            r.is_some() == !Self::quad_has_nan(quad@),
            r.is_some() ==> r.unwrap() == Self::spec_bounds_of_quad(quad@),
    {
        let mut i: usize = 0;
        while i < 4
            invariant
                i <= 4,
                forall|j: int| 0 <= j < i ==> !(#[trigger] quad@[j]).spec_has_nan(),
            decreases 4 - i,
        {
            if quad[i].has_nan() {
                assert(quad@[i as int].spec_has_nan());
                return None;
            }
            i += 1;
        }
        Some(
            Rect {
                left: quad[0].x.min(quad[1].x).min(quad[2].x).min(quad[3].x),
                top: quad[0].y.min(quad[1].y).min(quad[2].y).min(quad[3].y),
                right: quad[0].x.max(quad[1].x).max(quad[2].x).max(quad[3].x),
                bottom: quad[0].y.max(quad[1].y).max(quad[2].y).max(quad[3].y),
            },
        )
    }

    /// The same rectangle with its edges in order: left and right are
    /// exchanged if right is the smaller, and so are top and bottom.
    pub open spec fn spec_sorted(&self) -> Rect {
        Rect {
            left: self.left.spec_min(self.right),
            top: self.top.spec_min(self.bottom),
            right: self.left.spec_max(self.right),
            bottom: self.top.spec_max(self.bottom),
        }
    }

    #[verifier::when_used_as_spec(spec_sorted)]
    pub fn sorted(&self) -> (r: Rect)
        ensures
            r == self.spec_sorted(),
    {
        Rect {
            left: self.left.min(self.right),
            top: self.top.min(self.bottom),
            right: self.left.max(self.right),
            bottom: self.top.max(self.bottom),
        }
    }

    /// The rectangle encloses no area: it is not the case that `left < right`
    /// and `top < bottom`. A NaN edge makes a rectangle empty.
    pub open spec fn spec_is_empty(&self) -> bool {
        !(self.left.num_lt(self.right) && self.top.num_lt(self.bottom))
    }

    #[verifier::when_used_as_spec(spec_is_empty)]
    pub fn is_empty(&self) -> (r: bool)
        ensures
            r == self.spec_is_empty(),
    {
        !(self.left.lt(self.right) && self.top.lt(self.bottom))
    }
}

/// The bounding box of four points without a NaN holds each of them, and
/// each of its edges passes through one of them.
pub proof fn lemma_bounds_hold_the_quad(quad: Seq<Point>, i: int)
    requires
        quad.len() == 4,
        !Rect::quad_has_nan(quad),
        0 <= i < 4,
    ensures
        Rect::spec_bounds_of_quad(quad).left.num_le(quad[i].x),
        quad[i].x.num_le(Rect::spec_bounds_of_quad(quad).right),
        Rect::spec_bounds_of_quad(quad).top.num_le(quad[i].y),
        quad[i].y.num_le(Rect::spec_bounds_of_quad(quad).bottom),
        exists|j: int| 0 <= j < 4 && Rect::spec_bounds_of_quad(quad).left == (#[trigger] quad[j]).x,
        exists|j: int| 0 <= j < 4 && Rect::spec_bounds_of_quad(quad).right == (#[trigger] quad[j]).x,
        exists|j: int| 0 <= j < 4 && Rect::spec_bounds_of_quad(quad).top == (#[trigger] quad[j]).y,
        exists|j: int|
            0 <= j < 4 && Rect::spec_bounds_of_quad(quad).bottom == (#[trigger] quad[j]).y,
{
    assert(!quad[0].spec_has_nan());
    assert(!quad[1].spec_has_nan());
    assert(!quad[2].spec_has_nan());
    assert(!quad[3].spec_has_nan());
    let b = Rect::spec_bounds_of_quad(quad);
    assert(b.left == quad[0].x || b.left == quad[1].x || b.left == quad[2].x || b.left
        == quad[3].x);
    assert(b.right == quad[0].x || b.right == quad[1].x || b.right == quad[2].x || b.right
        == quad[3].x);
    assert(b.top == quad[0].y || b.top == quad[1].y || b.top == quad[2].y || b.top == quad[3].y);
    assert(b.bottom == quad[0].y || b.bottom == quad[1].y || b.bottom == quad[2].y || b.bottom
        == quad[3].y);
}

/// A rectangle without a NaN edge, put in order, has `left <= right` and
/// `top <= bottom`. Putting a rectangle in order changes nothing if it
/// encloses an area, and nothing the second time.
pub proof fn lemma_sorted(r: Rect)
    requires
        !r.left.spec_is_nan(),
        !r.top.spec_is_nan(),
        !r.right.spec_is_nan(),
        !r.bottom.spec_is_nan(),
    ensures
        r.spec_sorted().left.num_le(r.spec_sorted().right),
        r.spec_sorted().top.num_le(r.spec_sorted().bottom),
        !r.spec_is_empty() ==> r.spec_sorted() == r,
        r.spec_sorted().spec_sorted() == r.spec_sorted(),
{
}

} // verus!
