use std::cell::Cell;

use nalgebra as na;
use transform::{Components, Matrix3, Matrix4, Transform, TransformBuilder, UnitQuaternion, Vector3, ONE_BITS};

fn v(x: f32, y: f32, z: f32) -> Vector3 {
    Vector3 { x: x.to_bits(), y: y.to_bits(), z: z.to_bits() }
}

fn quat(q: na::UnitQuaternion<f32>) -> UnitQuaternion {
    UnitQuaternion { i: q.i.to_bits(), j: q.j.to_bits(), k: q.k.to_bits(), w: q.w.to_bits() }
}

fn na_vec(a: Vector3) -> na::Vector3<f32> {
    na::Vector3::new(f32::from_bits(a.x), f32::from_bits(a.y), f32::from_bits(a.z))
}

fn na_quat(q: UnitQuaternion) -> na::UnitQuaternion<f32> {
    na::UnitQuaternion::new_unchecked(na::Quaternion::new(
        f32::from_bits(q.w),
        f32::from_bits(q.i),
        f32::from_bits(q.j),
        f32::from_bits(q.k),
    ))
}

fn na_mat3(m: Matrix3) -> na::Matrix3<f32> {
    na::Matrix3::from_iterator(m.m.iter().map(|b| f32::from_bits(*b)))
}

fn to_mat3(m: na::Matrix3<f32>) -> Matrix3 {
    let mut out = [0u32; 9];
    for (o, x) in out.iter_mut().zip(m.iter()) {
        *o = x.to_bits();
    }
    Matrix3 { m: out }
}

fn to_mat4(m: na::Matrix4<f32>) -> Matrix4 {
    let mut out = [0u32; 16];
    for (o, x) in out.iter_mut().zip(m.iter()) {
        *o = x.to_bits();
    }
    Matrix4 { m: out }
}

fn invert(q: UnitQuaternion) -> Option<Matrix3> {
    na_quat(q).to_rotation_matrix().matrix().try_inverse().map(to_mat3)
}

fn singular(_q: UnitQuaternion) -> Option<Matrix3> {
    None
}

/// The eleven-matrix product, term by term.
fn product(c: Components, post_inverse: Matrix3) -> Matrix4 {
    let tr = |a: Vector3| na::Matrix4::new_translation(&na_vec(a));
    let rot = |q: UnitQuaternion| na_quat(q).to_homogeneous();
    let m = tr(c.local_position)
        * tr(c.rotation_offset)
        * tr(c.rotation_pivot)
        * rot(c.pre_rotation)
        * rot(c.local_rotation)
        * na_mat3(post_inverse).to_homogeneous()
        * na::Matrix4::new_translation(&-na_vec(c.rotation_pivot))
        * tr(c.scaling_offset)
        * tr(c.scaling_pivot)
        * na::Matrix4::new_nonuniform_scaling(&na_vec(c.local_scale))
        * na::Matrix4::new_translation(&-na_vec(c.scaling_pivot));
    to_mat4(m)
}

fn apply(m: Matrix4, p: na::Vector3<f32>) -> na::Vector3<f32> {
    let m = na::Matrix4::from_iterator(m.m.iter().map(|b| f32::from_bits(*b)));
    m.transform_point(&na::Point3::from(p)).coords
}

#[test]
fn identity_has_identity_components_and_is_dirty() {
    let t = Transform::identity();
    assert!(t.is_dirty());
    assert_eq!(t.components(), Components::identity());
    assert_eq!(t.scale(), v(1.0, 1.0, 1.0));
    assert_eq!(t.position(), v(0.0, 0.0, 0.0));
    assert_eq!(t.rotation(), quat(na::UnitQuaternion::identity()));
    assert_eq!(t.post_rotation_matrix().m, Matrix3::identity().m);
    assert_eq!(Transform::default().components(), Components::identity());
}

#[test]
fn identity_matrix_reads_back_identity() {
    let mut t = Transform::identity();
    let m = t.matrix(product);
    assert_eq!(m.m, Matrix4::identity().m);
    assert!(!t.is_dirty());
}

#[test]
fn second_read_uses_cache() {
    let calls = Cell::new(0u32);
    let compose = |c: Components, p: Matrix3| {
        calls.set(calls.get() + 1);
        product(c, p)
    };
    let mut t = TransformBuilder::new().with_local_position(v(1.0, 2.0, 3.0)).build(invert);
    let first = t.matrix(compose);
    let second = t.matrix(compose);
    assert_eq!(calls.get(), 1);
    assert_eq!(first.m, second.m);
}

#[test]
fn changed_value_is_seen_by_next_read() {
    let calls = Cell::new(0u32);
    let compose = |c: Components, p: Matrix3| {
        calls.set(calls.get() + 1);
        product(c, p)
    };
    let mut t = Transform::identity();
    t.matrix(compose);
    t.set_position(v(5.0, 0.0, 0.0));
    assert!(t.is_dirty());
    let m = t.matrix(compose);
    assert_eq!(calls.get(), 2);
    let p = apply(m, na::Vector3::new(0.0, 0.0, 0.0));
    assert_eq!(p, na::Vector3::new(5.0, 0.0, 0.0));
}

#[test]
fn redundant_sets_do_not_recompose() {
    let calls = Cell::new(0u32);
    let compose = |c: Components, p: Matrix3| {
        calls.set(calls.get() + 1);
        product(c, p)
    };
    let mut t = TransformBuilder::new()
        .with_local_position(v(1.0, 2.0, 3.0))
        .with_local_scale(v(2.0, 2.0, 2.0))
        .build(invert);
    t.matrix(compose);
    let post_calls = Cell::new(0u32);
    let counted_invert = |q: UnitQuaternion| {
        post_calls.set(post_calls.get() + 1);
        invert(q)
    };
    for _ in 0..10 {
        let c = t.components();
        t.set_position(c.local_position)
            .set_scale(c.local_scale)
            .set_rotation(c.local_rotation)
            .set_pre_rotation(c.pre_rotation)
            .set_rotation_offset(c.rotation_offset)
            .set_rotation_pivot(c.rotation_pivot)
            .set_scaling_offset(c.scaling_offset)
            .set_scaling_pivot(c.scaling_pivot)
            .set_post_rotation(c.post_rotation, counted_invert);
        assert!(!t.is_dirty());
    }
    t.matrix(compose);
    assert_eq!(calls.get(), 1);
    assert_eq!(post_calls.get(), 0);
}

#[test]
fn same_value_on_dirty_transform_keeps_it_dirty() {
    let mut t = Transform::identity();
    t.set_position(v(0.0, 0.0, 0.0));
    assert!(t.is_dirty());
}

#[test]
fn offset_always_marks_dirty() {
    let mut t = Transform::identity();
    t.matrix(product);
    let sum = |a: Vector3, b: Vector3| {
        let s = na_vec(a) + na_vec(b);
        v(s.x, s.y, s.z)
    };
    t.offset(v(0.0, 0.0, 0.0), sum);
    assert!(t.is_dirty());
    t.offset(v(1.0, 2.0, 3.0), sum);
    t.offset(v(1.0, 0.0, 0.0), sum);
    assert_eq!(t.position(), v(2.0, 2.0, 3.0));
}

#[test]
fn singular_post_rotation_falls_back_to_identity() {
    let mut t = Transform::identity();
    let q = quat(na::UnitQuaternion::from_axis_angle(&na::Vector3::x_axis(), 1.0));
    t.set_post_rotation(q, singular);
    assert_eq!(t.post_rotation(), q);
    assert_eq!(t.post_rotation_matrix().m, Matrix3::identity().m);
    assert!(t.is_dirty());
    let b = TransformBuilder::new().with_post_rotation(q).build(singular);
    assert_eq!(b.post_rotation_matrix().m, Matrix3::identity().m);
}

#[test]
fn post_rotation_inverse_is_kept() {
    let mut t = Transform::identity();
    let nq = na::UnitQuaternion::from_axis_angle(&na::Vector3::z_axis(), std::f32::consts::FRAC_PI_2);
    t.set_post_rotation(quat(nq), invert);
    let expected = nq.to_rotation_matrix().matrix().try_inverse().unwrap();
    assert_eq!(t.post_rotation_matrix().m, to_mat3(expected).m);
    assert_ne!(t.post_rotation_matrix().m, Matrix3::identity().m);
}

#[test]
fn builder_defaults_unset_fields() {
    let q = quat(na::UnitQuaternion::from_axis_angle(&na::Vector3::y_axis(), 0.5));
    let t = TransformBuilder::new()
        .with_rotation_pivot(v(1.0, 0.0, 0.0))
        .with_pre_rotation(q)
        .build(invert);
    let c = t.components();
    assert_eq!(c.rotation_pivot, v(1.0, 0.0, 0.0));
    assert_eq!(c.pre_rotation, q);
    assert_eq!(c.local_scale, Vector3 { x: ONE_BITS, y: ONE_BITS, z: ONE_BITS });
    assert_eq!(c.local_position, Vector3::zeros());
    assert_eq!(c.post_rotation, UnitQuaternion::identity());
    assert_eq!(c.scaling_pivot, Vector3::zeros());
    assert!(t.is_dirty());
    assert_eq!(TransformBuilder::default(), TransformBuilder::new());
}

#[test]
fn builder_sets_every_field() {
    let q1 = quat(na::UnitQuaternion::from_axis_angle(&na::Vector3::x_axis(), 0.1));
    let q2 = quat(na::UnitQuaternion::from_axis_angle(&na::Vector3::y_axis(), 0.2));
    let q3 = quat(na::UnitQuaternion::from_axis_angle(&na::Vector3::z_axis(), 0.3));
    let t = TransformBuilder::new()
        .with_local_scale(v(1.0, 2.0, 3.0))
        .with_local_position(v(4.0, 5.0, 6.0))
        .with_local_rotation(q1)
        .with_pre_rotation(q2)
        .with_post_rotation(q3)
        .with_rotation_offset(v(7.0, 0.0, 0.0))
        .with_rotation_pivot(v(0.0, 8.0, 0.0))
        .with_scaling_offset(v(0.0, 0.0, 9.0))
        .with_scaling_pivot(v(1.5, 0.0, 0.0))
        .build(invert);
    assert_eq!(t.scale(), v(1.0, 2.0, 3.0));
    assert_eq!(t.position(), v(4.0, 5.0, 6.0));
    assert_eq!(t.rotation(), q1);
    assert_eq!(t.pre_rotation(), q2);
    assert_eq!(t.post_rotation(), q3);
    assert_eq!(t.rotation_offset(), v(7.0, 0.0, 0.0));
    assert_eq!(t.rotation_pivot(), v(0.0, 8.0, 0.0));
    assert_eq!(t.scaling_offset(), v(0.0, 0.0, 9.0));
    assert_eq!(t.scaling_pivot(), v(1.5, 0.0, 0.0));
    assert_eq!(t.post_rotation_matrix().m, invert(q3).unwrap().m);
}

#[test]
fn translated_rotated_scaled_point() {
    let rz = quat(na::UnitQuaternion::from_axis_angle(&na::Vector3::z_axis(), std::f32::consts::FRAC_PI_2));
    let mut t = TransformBuilder::new()
        .with_local_position(v(1.0, 2.0, 3.0))
        .with_local_rotation(rz)
        .with_local_scale(v(2.0, 1.0, 1.0))
        .build(invert);
    let p = apply(t.matrix(product), na::Vector3::new(1.0, 0.0, 0.0));
    assert!((p - na::Vector3::new(1.0, 4.0, 3.0)).norm() < 1e-5);
}

#[test]
fn point_at_rotation_pivot_stays() {
    let rz = quat(na::UnitQuaternion::from_axis_angle(&na::Vector3::z_axis(), std::f32::consts::FRAC_PI_2));
    let mut t = Transform::identity();
    t.set_rotation_pivot(v(1.0, 1.0, 0.0)).set_rotation(rz);
    let m = t.matrix(product);
    let at = apply(m, na::Vector3::new(1.0, 1.0, 0.0));
    assert!((at - na::Vector3::new(1.0, 1.0, 0.0)).norm() < 1e-5);
    let off = apply(m, na::Vector3::new(3.0, 1.0, 0.0));
    assert!((off - na::Vector3::new(1.0, 3.0, 0.0)).norm() < 1e-5);
}

#[test]
fn negative_zero_equals_zero_and_keeps_clean() {
    let mut t = Transform::identity();
    t.matrix(product);
    t.set_position(v(-0.0, 0.0, -0.0));
    assert!(!t.is_dirty());
    assert_eq!(t.position(), v(0.0, 0.0, 0.0));
    assert!(v(-0.0, 1.0, 2.0).equals(&v(0.0, 1.0, 2.0)));
}

#[test]
fn nan_never_equals_itself() {
    let mut t = TransformBuilder::new().with_local_position(v(f32::NAN, 0.0, 0.0)).build(invert);
    t.matrix(product);
    assert!(!t.is_dirty());
    t.set_position(t.position());
    assert!(t.is_dirty());
    assert!(!v(f32::NAN, 0.0, 0.0).equals(&v(f32::NAN, 0.0, 0.0)));
    assert!(!quat(na::UnitQuaternion::identity()).equals(&UnitQuaternion { i: f32::NAN.to_bits(), j: 0, k: 0, w: ONE_BITS }));
}

#[test]
fn different_value_marks_dirty_for_every_setter() {
    let q = quat(na::UnitQuaternion::from_axis_angle(&na::Vector3::x_axis(), 0.25));
    let a = v(0.5, 0.0, 0.0);
    let steps: Vec<Box<dyn Fn(&mut Transform)>> = vec![
        Box::new(move |t| {
            t.set_scale(a);
        }),
        Box::new(move |t| {
            t.set_rotation(q);
        }),
        Box::new(move |t| {
            t.set_pre_rotation(q);
        }),
        Box::new(move |t| {
            t.set_post_rotation(q, invert);
        }),
        Box::new(move |t| {
            t.set_rotation_offset(a);
        }),
        Box::new(move |t| {
            t.set_rotation_pivot(a);
        }),
        Box::new(move |t| {
            t.set_scaling_offset(a);
        }),
        Box::new(move |t| {
            t.set_scaling_pivot(a);
        }),
    ];
    for step in steps.iter() {
        let calls = Cell::new(0u32);
        let compose = |c: Components, p: Matrix3| {
            calls.set(calls.get() + 1);
            product(c, p)
        };
        let mut t = Transform::identity();
        t.matrix(compose);
        step(&mut t);
        assert!(t.is_dirty());
        t.matrix(compose);
        assert_eq!(calls.get(), 2);
    }
}

#[test]
fn clone_is_an_independent_value() {
    let mut a = TransformBuilder::new().with_local_position(v(1.0, 0.0, 0.0)).build(invert);
    a.matrix(product);
    let mut b = a.clone();
    b.set_position(v(2.0, 0.0, 0.0));
    assert!(!a.is_dirty());
    assert!(b.is_dirty());
    assert_eq!(a.position(), v(1.0, 0.0, 0.0));
    assert_eq!(b.position(), v(2.0, 0.0, 0.0));
}
