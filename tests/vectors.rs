use geometry_tools::vectors::orthonormalize;
use glam::Vec3A;

const EPSILON: f32 = 0.0001;

#[test]
fn orthogonalize_vector() {
    // Not orthogonal initally.
    let a = Vec3A::new(1.0, 0.5, 0.0);
    let b = Vec3A::new(1.0, 0.0, 0.0);
    assert_ne!(0.0, a.dot(b));

    // a and b should now be orthogonal.
    // dot(a, b) == 0 if a and b are orthogonal.
    let a_ortho_to_b = orthonormalize(&a, &b);
    assert!(a_ortho_to_b.dot(b).abs() <= EPSILON);
}

#[test]
fn already_orthogonal() {
    // Already orthogonal.
    let a = Vec3A::new(0.0, 1.0, 0.0);
    let b = Vec3A::new(1.0, 0.0, 0.0);
    assert!(a.dot(b).abs() <= EPSILON);

    // a should remain the same
    let a_ortho_to_b = orthonormalize(&a, &b);
    assert_eq!(a, a_ortho_to_b);
}

#[test]
fn orthonormalize_scales_to_unit_length() {
    let a = Vec3A::new(3.0, 4.0, 0.0);
    let b = Vec3A::new(1.0, 0.0, 0.0);
    let r = orthonormalize(&a, &b);
    assert_eq!(Vec3A::new(0.0, 1.0, 0.0), r);
}
