use skia_safe::Point;
use skia_safe::Point3;
use skia_safe::RSXform;
use skia_safe::Rect;
use skia_safe::Scalar;
use skia_safe::Size;

fn s(v: f32) -> Scalar {
    Scalar::from_bits(v.to_bits())
}

fn f(v: Scalar) -> f32 {
    f32::from_bits(v.to_bits())
}

fn edges(r: Rect) -> [f32; 4] {
    [f(r.left), f(r.top), f(r.right), f(r.bottom)]
}

fn p(x: f32, y: f32) -> Point {
    Point::new(s(x), s(y))
}

#[test]
fn constructors_place_their_parts() {
    let q = Point3::new(s(1.0), s(2.0), s(3.0));
    assert_eq!((f(q.x), f(q.y), f(q.z)), (1.0, 2.0, 3.0));
    let z = Size::new(s(4.0), s(5.0));
    assert_eq!((f(z.width), f(z.height)), (4.0, 5.0));
    let x = RSXform::new(s(1.0), s(2.0), s(3.0), s(4.0));
    assert_eq!((f(x.scos), f(x.ssin), f(x.tx), f(x.ty)), (1.0, 2.0, 3.0, 4.0));
    let t: Point = (s(6.0), s(7.0)).into();
    assert_eq!((f(t.x), f(t.y)), (6.0, 7.0));
    assert_eq!(edges(Rect::new(s(1.0), s(2.0), s(3.0), s(4.0))), [1.0, 2.0, 3.0, 4.0]);
}

#[test]
fn smaller_and_larger() {
    assert_eq!(f(s(1.0).min(s(2.0))), 1.0);
    assert_eq!(f(s(2.0).min(s(1.0))), 1.0);
    assert_eq!(f(s(-3.0).max(s(-4.0))), -3.0);
    assert_eq!(f(s(-3.0).min(s(-4.0))), -4.0);
    assert_eq!(f(s(f32::NEG_INFINITY).min(s(0.0))), f32::NEG_INFINITY);
    assert_eq!(f(s(f32::INFINITY).max(s(f32::MAX))), f32::INFINITY);
    assert_eq!(s(0.0).min(s(-0.0)).to_bits(), 0.0f32.to_bits());
    assert_eq!(s(-0.0).max(s(0.0)).to_bits(), (-0.0f32).to_bits());
    assert_eq!(f(s(5.0).min(s(f32::NAN))), 5.0);
    assert!(f(s(f32::NAN).max(s(5.0))).is_nan());
}

#[test]
fn bounding_box_of_a_rotated_square() {
    let quad = [p(0.0, -1.0), p(1.0, 0.0), p(0.0, 1.0), p(-1.0, 0.0)];
    let bounds = Rect::bounds_of_quad(&quad).unwrap();
    assert_eq!(edges(bounds), [-1.0, -1.0, 1.0, 1.0]);
}

#[test]
fn bounding_box_in_any_order() {
    let quad = [p(7.0, 2.0), p(-3.0, 9.0), p(4.0, -5.0), p(0.5, 0.25)];
    assert_eq!(edges(Rect::bounds_of_quad(&quad).unwrap()), [-3.0, -5.0, 7.0, 9.0]);
    let point = [p(2.0, 3.0); 4];
    assert_eq!(edges(Rect::bounds_of_quad(&point).unwrap()), [2.0, 3.0, 2.0, 3.0]);
    let far = [p(f32::NEG_INFINITY, 0.0), p(1.0, f32::INFINITY), p(0.0, 0.0), p(2.0, 1.0)];
    assert_eq!(
        edges(Rect::bounds_of_quad(&far).unwrap()),
        [f32::NEG_INFINITY, 0.0, 2.0, f32::INFINITY]
    );
}

#[test]
fn bounding_box_refuses_nan() {
    for i in 0..4 {
        let mut quad = [p(0.0, 0.0), p(1.0, 0.0), p(1.0, 1.0), p(0.0, 1.0)];
        quad[i] = p(f32::NAN, 0.5);
        assert!(Rect::bounds_of_quad(&quad).is_none());
        quad[i] = p(0.5, f32::NAN);
        assert!(Rect::bounds_of_quad(&quad).is_none());
    }
    assert!(p(f32::NAN, 0.0).has_nan());
    assert!(p(0.0, f32::NAN).has_nan());
    assert!(!p(0.0, f32::INFINITY).has_nan());
}

#[test]
fn sorted_puts_edges_in_order() {
    let r = Rect::new(s(5.0), s(8.0), s(1.0), s(2.0));
    assert_eq!(edges(r.sorted()), [1.0, 2.0, 5.0, 8.0]);
    let kept = Rect::new(s(1.0), s(2.0), s(5.0), s(8.0));
    assert_eq!(edges(kept.sorted()), [1.0, 2.0, 5.0, 8.0]);
    let mixed = Rect::new(s(1.0), s(8.0), s(5.0), s(2.0));
    assert_eq!(edges(mixed.sorted()), [1.0, 2.0, 5.0, 8.0]);
    assert_eq!(edges(mixed.sorted().sorted()), edges(mixed.sorted()));
}
