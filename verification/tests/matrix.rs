use skia_safe::AffineMember;
use skia_safe::Matrix;
use skia_safe::Member;
use skia_safe::Point;
use skia_safe::RSXform;
use skia_safe::Scalar;
use skia_safe::TypeMask;

fn s(v: f32) -> Scalar {
    Scalar::from_bits(v.to_bits())
}

fn f(v: Scalar) -> f32 {
    f32::from_bits(v.to_bits())
}

fn values(m: &Matrix) -> [f32; 9] {
    let mut buffer = [Scalar::zero(); 9];
    m.get_9(&mut buffer);
    let mut out = [0.0f32; 9];
    for i in 0..9 {
        out[i] = f(buffer[i]);
    }
    out
}

#[test]
fn test_get_set_trait_compilation() {
    let mut m = Matrix::new_identity();
    let _x = m.get_affine(AffineMember::ScaleX);
    m.set_affine_member(AffineMember::ScaleX, s(1.0));
}

#[test]
fn test_tuple_to_vector() {
    let mut m = Matrix::new_identity();
    m.set_translate((s(10.0), s(11.0)).into());
    assert_eq!(10.0, f(m.translate_x()));
    assert_eq!(11.0, f(m.translate_y()));
}

#[test]
fn setting_a_matrix_component_recomputes_typemask() {
    let mut m = Matrix::default();
    assert_eq!(TypeMask::identity(), m.get_type());
    m.set_persp_x(s(0.1));
    assert_eq!(
        TypeMask::translate() | TypeMask::scale() | TypeMask::affine() | TypeMask::perspective(),
        m.get_type()
    );
}

#[test]
fn static_identity_matrix() {
    let i = Matrix::i();
    let identity = Matrix::new_identity();
    assert_eq!(i, identity)
}

#[test]
fn identity_has_no_class_bits() {
    let m = Matrix::new_identity();
    assert_eq!(m.get_type().bits(), 0);
    assert!(m.is_identity());
    assert!(m.is_translate());
    assert!(m.is_scale_translate());
    assert!(!m.has_perspective());
    assert!(m.rect_stays_rect());
    assert!(m.preserves_axis_alignment());
    assert_eq!(values(&m), [1.0, 0.0, 0.0, 0.0, 1.0, 0.0, 0.0, 0.0, 1.0]);
}

#[test]
fn translate_has_exactly_the_translate_bit() {
    let m = Matrix::new_trans(Point::new(s(5.0), s(0.0)));
    assert_eq!(m.get_type(), TypeMask::translate());
    assert_eq!(m.get_type().bits(), 1);
    assert!(m.is_translate());
    assert!(!m.is_identity());
    assert!(m.rect_stays_rect());
}

#[test]
fn zero_translate_is_identity() {
    let m = Matrix::new_trans(Point::new(s(0.0), s(-0.0)));
    assert_eq!(m.get_type(), TypeMask::identity());
    assert!(m.is_identity());
}

#[test]
fn scale_has_exactly_the_scale_bit() {
    let m = Matrix::new_scale((s(2.0), s(1.0)));
    assert_eq!(m.get_type(), TypeMask::scale());
    assert_eq!(m.get_type().bits(), 2);
    assert!(!m.is_translate());
    assert!(m.is_scale_translate());
    assert!(m.rect_stays_rect());
}

#[test]
fn unit_scale_is_identity() {
    let m = Matrix::new_scale((s(1.0), s(1.0)));
    assert_eq!(m.get_type(), TypeMask::identity());
}

#[test]
fn scale_with_translate_has_both_bits() {
    let mut m = Matrix::new_identity();
    m.set_scale_translate((s(2.0), s(0.5)), Point::new(s(3.0), s(4.0)));
    assert_eq!(m.get_type(), TypeMask::scale() | TypeMask::translate());
    assert_eq!(m.get_type().bits(), 3);
    assert_eq!(values(&m), [2.0, 0.0, 3.0, 0.0, 0.5, 4.0, 0.0, 0.0, 1.0]);
}

#[test]
fn zero_scale_does_not_keep_rectangles() {
    let m = Matrix::new_scale((s(0.0), s(2.0)));
    assert!(!m.rect_stays_rect());
    assert!(m.is_scale_translate());
}

#[test]
fn skew_sets_affine_and_scale() {
    let mut m = Matrix::new_identity();
    m.set_skew((s(0.5), s(0.0)));
    assert_eq!(m.get_type(), TypeMask::affine() | TypeMask::scale());
    assert_eq!(m.get_type().bits(), 6);
    assert!(!m.is_scale_translate());
    assert!(!m.rect_stays_rect());
    assert_eq!(values(&m), [1.0, 0.5, 0.0, 0.0, 1.0, 0.0, 0.0, 0.0, 1.0]);
}

#[test]
fn quarter_turn_keeps_rectangles() {
    let mut m = Matrix::new_identity();
    m.set_sin_cos((s(1.0), s(0.0)));
    assert_eq!(values(&m), [0.0, -1.0, 0.0, 1.0, 0.0, 0.0, 0.0, 0.0, 1.0]);
    assert!(m.rect_stays_rect());
    assert_eq!(m.get_type().bits(), 6);
}

#[test]
fn general_rotation_does_not_keep_rectangles() {
    let mut m = Matrix::new_identity();
    m.set_sin_cos((s(0.5), s(0.8660254)));
    assert!(!m.rect_stays_rect());
    assert!(!m.preserves_axis_alignment());
    assert!(!m.has_perspective());
}

#[test]
fn perspective_sets_every_bit() {
    for member in [Member::Persp0, Member::Persp1] {
        let mut m = Matrix::new_identity();
        m.set(member, s(0.001));
        assert_eq!(m.get_type(), TypeMask::all());
        assert_eq!(m.get_type().bits(), 0xf);
        assert!(m.has_perspective());
        assert!(!m.rect_stays_rect());
        assert!(!m.is_scale_translate());
        assert!(m.to_affine().is_none());
    }
    let mut m = Matrix::new_identity();
    m.set(Member::Persp2, s(2.0));
    assert_eq!(m.get_type().bits(), 0xf);
}

#[test]
fn nan_in_the_bottom_row_is_perspective() {
    let mut m = Matrix::new_identity();
    m.set_persp_y(s(f32::NAN));
    assert!(m.has_perspective());
    assert!(!m.is_finite());
}

#[test]
fn cache_follows_every_write() {
    let mut m = Matrix::new_identity();
    assert_eq!(m.get_type().bits(), 0);
    m.set_scale_x(s(3.0));
    assert_eq!(m.get_type().bits(), 2);
    m.set_translate_y(s(1.0));
    assert_eq!(m.get_type().bits(), 3);
    m.set_skew_x(s(1.0));
    assert_eq!(m.get_type().bits(), 7);
    m.set_skew_x(s(0.0)).set_scale_x(s(1.0)).set_translate_y(s(0.0));
    assert_eq!(m.get_type().bits(), 0);
    m.set_at(8, s(0.5));
    assert_eq!(m.get_type().bits(), 0xf);
    m.reset();
    assert_eq!(m.get_type().bits(), 0);
    m.dirty_matrix_type_cache();
    assert_eq!(m.get_type().bits(), 0);
    assert!(m.is_identity());
}

#[test]
fn members_index_row_major() {
    let m = Matrix::new_all(
        s(1.0),
        s(2.0),
        s(3.0),
        s(4.0),
        s(5.0),
        s(6.0),
        s(7.0),
        s(8.0),
        s(9.0),
    );
    assert_eq!(f(m.get(Member::ScaleX)), 1.0);
    assert_eq!(f(m.get(Member::SkewX)), 2.0);
    assert_eq!(f(m.get(Member::TransX)), 3.0);
    assert_eq!(f(m.get(Member::SkewY)), 4.0);
    assert_eq!(f(m.get(Member::ScaleY)), 5.0);
    assert_eq!(f(m.get(Member::TransY)), 6.0);
    assert_eq!(f(m.get(Member::Persp0)), 7.0);
    assert_eq!(f(m.get(Member::Persp1)), 8.0);
    assert_eq!(f(m.get(Member::Persp2)), 9.0);
    for i in 0..9 {
        assert_eq!(f(m.at(i)), (i + 1) as f32);
    }
    assert_eq!(f(m.scale_x()), 1.0);
    assert_eq!(f(m.skew_x()), 2.0);
    assert_eq!(f(m.translate_x()), 3.0);
    assert_eq!(f(m.skew_y()), 4.0);
    assert_eq!(f(m.scale_y()), 5.0);
    assert_eq!(f(m.translate_y()), 6.0);
    assert_eq!(f(m.persp_x()), 7.0);
    assert_eq!(f(m.persp_y()), 8.0);
    assert_eq!(f(m.get_scale_x()), 1.0);
    assert_eq!(f(m.get_persp_y()), 8.0);
}

#[test]
fn affine_members_name_the_same_coefficients() {
    let m = Matrix::new_all(
        s(1.0),
        s(2.0),
        s(3.0),
        s(4.0),
        s(5.0),
        s(6.0),
        s(0.0),
        s(0.0),
        s(1.0),
    );
    assert_eq!(f(m.get_affine(AffineMember::ScaleX)), 1.0);
    assert_eq!(f(m.get_affine(AffineMember::SkewY)), 4.0);
    assert_eq!(f(m.get_affine(AffineMember::SkewX)), 2.0);
    assert_eq!(f(m.get_affine(AffineMember::ScaleY)), 5.0);
    assert_eq!(f(m.get_affine(AffineMember::TransX)), 3.0);
    assert_eq!(f(m.get_affine(AffineMember::TransY)), 6.0);
    let affine = m.to_affine().unwrap();
    let order = [
        AffineMember::ScaleX,
        AffineMember::SkewY,
        AffineMember::SkewX,
        AffineMember::ScaleY,
        AffineMember::TransX,
        AffineMember::TransY,
    ];
    for member in order {
        assert_eq!(f(affine[member.index()]), f(m.get(member.member())));
    }
    assert_eq!(
        [f(affine[0]), f(affine[1]), f(affine[2]), f(affine[3]), f(affine[4]), f(affine[5])],
        [1.0, 4.0, 2.0, 5.0, 3.0, 6.0]
    );
    assert_eq!(m.as_affine().map(|a| f(a[1])), Some(4.0));
}

#[test]
fn affine_form_round_trip() {
    let affine = [s(1.0), s(4.0), s(2.0), s(5.0), s(3.0), s(6.0)];
    let m = Matrix::from_affine(&affine);
    assert_eq!(values(&m), [1.0, 2.0, 3.0, 4.0, 5.0, 6.0, 0.0, 0.0, 1.0]);
    let mut n = Matrix::new_identity();
    n.set_affine(&affine);
    assert_eq!(m, n);
    let back = n.to_affine().unwrap();
    for i in 0..6 {
        assert_eq!(f(back[i]), f(affine[i]));
    }
    let mut identity = [s(7.0); 6];
    Matrix::set_affine_identity(&mut identity);
    assert_eq!(identity.map(f), [1.0, 0.0, 0.0, 1.0, 0.0, 0.0]);
}

#[test]
fn set_all_and_set_9_agree() {
    let mut a = Matrix::new_identity();
    a.set_all(s(1.0), s(2.0), s(3.0), s(4.0), s(5.0), s(6.0), s(7.0), s(8.0), s(9.0));
    let mut b = Matrix::new_identity();
    let buffer = [s(1.0), s(2.0), s(3.0), s(4.0), s(5.0), s(6.0), s(7.0), s(8.0), s(9.0)];
    b.set_9(&buffer);
    assert_eq!(a, b);
    assert!(a.cheap_equal_to(&b));
    assert_eq!(values(&a), [1.0, 2.0, 3.0, 4.0, 5.0, 6.0, 7.0, 8.0, 9.0]);
}

#[test]
fn rsxform_places_its_parts() {
    let mut m = Matrix::new_identity();
    m.set_rsxform(&RSXform::new(s(2.0), s(3.0), s(4.0), s(5.0)));
    assert_eq!(values(&m), [2.0, -3.0, 4.0, 3.0, 2.0, 5.0, 0.0, 0.0, 1.0]);
}

#[test]
fn set_scale_overwrites() {
    let mut m = Matrix::new_trans(Point::new(s(5.0), s(6.0)));
    m.set_scale((s(2.0), s(3.0)));
    assert_eq!(values(&m), [2.0, 0.0, 0.0, 0.0, 3.0, 0.0, 0.0, 0.0, 1.0]);
    m.set_identity();
    assert!(m.is_identity());
}

#[test]
fn equality_is_numeric_and_cheap_equality_is_bitwise() {
    let a = Matrix::new_trans(Point::new(s(0.0), s(1.0)));
    let b = Matrix::new_trans(Point::new(s(-0.0), s(1.0)));
    assert!(a == b);
    assert!(!a.cheap_equal_to(&b));
    assert!(a.cheap_equal_to(&a));
    let n = Matrix::new_trans(Point::new(s(f32::NAN), s(1.0)));
    assert!(n != n);
    assert!(n.cheap_equal_to(&n));
    let c = Matrix::new_trans(Point::new(s(0.0), s(2.0)));
    assert!(a != c);
    assert!(!a.cheap_equal_to(&c));
}

#[test]
fn finite_means_no_infinity_and_no_nan() {
    let mut m = Matrix::new_identity();
    assert!(m.is_finite());
    m.set_scale_y(s(f32::MAX));
    assert!(m.is_finite());
    m.set_scale_y(s(f32::INFINITY));
    assert!(!m.is_finite());
    m.set_scale_y(s(1.0)).set_persp_y(s(f32::NEG_INFINITY));
    assert!(!m.is_finite());
}

#[test]
fn invalid_matrix_holds_the_largest_value() {
    let m = Matrix::invalid_matrix();
    assert_eq!(values(&m), [f32::MAX; 9]);
    assert!(m.has_perspective());
    assert!(m.is_finite());
}

#[test]
fn fixed_step_in_x_follows_the_perspective_of_x() {
    let mut m = Matrix::new_identity();
    assert!(m.is_fixed_step_in_x());
    m.set_persp_y(s(0.5));
    assert!(m.is_fixed_step_in_x());
    m.set_persp_x(s(0.5));
    assert!(!m.is_fixed_step_in_x());
    m.set_persp_x(s(-0.5));
    assert!(!m.is_fixed_step_in_x());
    let bound = 1.0f32 / (1u32 << 26) as f32;
    m.set_persp_x(s(bound));
    assert!(m.is_fixed_step_in_x());
    m.set_persp_x(s(-bound));
    assert!(m.is_fixed_step_in_x());
    m.set_persp_x(s(bound * 1.0001));
    assert!(!m.is_fixed_step_in_x());
    m.set_persp_x(s(f32::NAN));
    assert!(!m.is_fixed_step_in_x());
}
