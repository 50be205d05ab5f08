use baba::gfx::Transform;
use glam::{Affine2, Mat2, Mat3, Vec2};

fn rotation(angle: f32) -> Transform {
    Transform::from_affine(Affine2::from_angle(angle))
}

#[test]
fn identity_leaves_points_alone() {
    let p = Vec2::new(3.5, -2.0);
    assert_eq!(Transform::identity().transform_point(p), p);
    assert_eq!(Transform::identity().to_affine(), Affine2::IDENTITY);
    assert_eq!(Transform::default().to_affine(), Affine2::IDENTITY);
}

#[test]
fn translation_moves_the_origin() {
    let t = Transform::from_translation(Vec2::new(1.0, 2.0));
    assert_eq!(t.transform_point(Vec2::ZERO), Vec2::new(1.0, 2.0));
    assert_eq!(t.transform_point(Vec2::new(10.0, 10.0)), Vec2::new(11.0, 12.0));
}

#[test]
fn scale_multiplies_each_coordinate() {
    let t = Transform::from_scale(Vec2::new(2.0, 3.0));
    assert_eq!(t.transform_point(Vec2::new(4.0, 5.0)), Vec2::new(8.0, 15.0));
}

#[test]
fn from_affine_and_to_affine_round_trip() {
    let aff = Affine2::from_scale_angle_translation(Vec2::new(2.0, 2.0), 0.5, Vec2::new(1.0, 1.0));
    assert_eq!(Transform::from_affine(aff).to_affine(), aff);
}

#[test]
fn compose_applies_the_other_transform_first() {
    let a = Transform::from_translation(Vec2::new(10.0, 0.0));
    let b = Transform::from_scale(Vec2::new(2.0, 2.0));
    let p = Vec2::new(1.0, 1.0);
    // scale first, then move
    assert_eq!(a.compose(b).transform_point(p), Vec2::new(12.0, 2.0));
    assert_eq!(a.compose(b).transform_point(p), a.transform_point(b.transform_point(p)));
    // move first, then scale
    assert_eq!(b.compose(a).transform_point(p), Vec2::new(22.0, 2.0));
}

#[test]
fn translate_and_scale_compose_on_the_right() {
    let t = Vec2::new(100.0, 50.0);
    let s = Vec2::new(4.0, 2.0);
    let chained = Transform::identity().translate(t).scale(s);
    let manual = Affine2::IDENTITY * Affine2::from_translation(t) * Affine2::from_scale(s);
    assert_eq!(chained.to_affine(), manual);
    assert_eq!(chained.transform_point(Vec2::new(1.0, 1.0)), Vec2::new(104.0, 52.0));
    assert_eq!(Transform::from_translation_scale(t, s).to_affine(), manual);
}

#[test]
fn chain_at_origin_matches_manual_composition() {
    let cases = [
        (Vec2::new(100.0, 100.0), Vec2::new(1.0, 1.0), 0.0f32),
        (Vec2::new(-3.25, 8.5), Vec2::new(2.0, 0.5), 1.25),
        (Vec2::new(400.0, 300.0), Vec2::new(8.0, 8.0), -2.5),
        (Vec2::new(0.0, 0.0), Vec2::new(0.0, 3.0), 3.0),
    ];
    for (t, s, a) in cases {
        let chained = Transform::identity().translate(t).scale(s).compose(rotation(a));
        let manual =
            Affine2::from_translation(t) * Affine2::from_angle(a) * Affine2::from_scale(s);
        assert_eq!(chained.transform_point(Vec2::ZERO), manual.transform_point2(Vec2::ZERO));
        assert_eq!(chained.transform_point(Vec2::ZERO), t);
        let built = Transform::from_translation_scale_rotation(t, s, rotation(a));
        assert_eq!(built.to_affine(), chained.to_affine());
    }
}

#[test]
fn chain_is_the_product_in_written_order() {
    let t = Vec2::new(5.0, 6.0);
    let s = Vec2::new(2.0, 3.0);
    let a = 0.75f32;
    let chained = Transform::identity().translate(t).scale(s).compose(rotation(a));
    let product = ((Affine2::IDENTITY * Affine2::from_translation(t)) * Affine2::from_scale(s))
        * Affine2::from_angle(a);
    assert_eq!(chained.to_affine(), product);
    let p = Vec2::new(1.0, 0.0);
    assert_eq!(chained.transform_point(p), product.transform_point2(p));
}

#[test]
fn transforms_from_matrices() {
    let m2 = Mat2::from_cols(Vec2::new(2.0, 0.0), Vec2::new(0.0, 3.0));
    assert_eq!(Transform::from(m2).to_affine(), Affine2::from_mat2(m2));
    let m3 = Mat3::from_translation(Vec2::new(7.0, 9.0));
    assert_eq!(Transform::from(m3).to_affine(), Affine2::from_mat3(m3));
    assert_eq!(Transform::from(m3).transform_point(Vec2::ZERO), Vec2::new(7.0, 9.0));
    assert_eq!(Transform::from(Vec2::new(1.0, 2.0)).transform_point(Vec2::ZERO), Vec2::new(1.0, 2.0));
    assert_eq!(
        Transform::from((Vec2::new(1.0, 2.0), Vec2::new(3.0, 3.0))).transform_point(Vec2::ONE),
        Vec2::new(4.0, 5.0)
    );
}

#[test]
fn product_is_composition() {
    let a = Transform::from_translation(Vec2::new(10.0, 0.0));
    let b = Transform::from_scale(Vec2::new(2.0, 2.0));
    let p = Vec2::new(1.0, 1.0);
    assert_eq!((a * b).to_affine(), a.compose(b).to_affine());
    assert_eq!((a * b).transform_point(p), Vec2::new(12.0, 2.0));
    assert_eq!((b * a).transform_point(p), Vec2::new(22.0, 2.0));
    assert_eq!((a * b).to_affine(), a.to_affine() * b.to_affine());
}
