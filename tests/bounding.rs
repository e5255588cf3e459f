use geometry_tools::bounding::{
    calculate_aabb_from_points, calculate_bounding_sphere_from_points,
    calculate_bounding_sphere_from_spheres,
};
use glam::{Vec3, Vec3A, Vec4, Vec4Swizzles};

fn sphere_contains_points(points: &[Vec3A], sphere: Vec4) -> bool {
    let center = sphere.xyz();
    let radius = sphere.w;

    for point in points {
        if point.distance(center.into()) > radius {
            return false;
        }
    }

    true
}

fn sphere_contains_spheres(spheres: &[Vec4], sphere: Vec4) -> bool {
    // Two spheres intersect if the distance between their centers
    // is less than the sum of their radii.
    let center = sphere.xyz();
    let radius = sphere.w;
    for sphere2 in spheres {
        let center2 = sphere2.xyz();
        let radius2 = sphere2.w;
        if center.distance(center2) > radius + radius2 {
            return false;
        }
    }

    true
}

#[test]
fn aabb_no_points() {
    let aabb = calculate_aabb_from_points(&[]);
    assert_eq!((Vec3A::ZERO, Vec3A::ZERO), aabb);
}

#[test]
fn aabb_single_point() {
    let aabb = calculate_aabb_from_points(&[Vec3A::new(0.5f32, 1.0f32, 2f32)]);
    assert_eq!(
        (
            Vec3A::new(0.5f32, 1.0f32, 2f32),
            Vec3A::new(0.5f32, 1.0f32, 2f32)
        ),
        aabb
    );
}

#[test]
fn aabb_multiple_points() {
    let aabb = calculate_aabb_from_points(&[
        Vec3A::new(-1f32, 1f32, 2f32),
        Vec3A::new(0f32, 2f32, 1f32),
        Vec3A::new(2f32, -1f32, -1f32),
    ]);
    assert_eq!(
        (
            Vec3A::new(-1f32, -1f32, -1f32),
            Vec3A::new(2f32, 2f32, 2f32)
        ),
        aabb
    );
}

#[test]
fn aabb_other_order() {
    let (min, max) = calculate_aabb_from_points(&[
        Vec3A::new(0f32, 2f32, 1f32),
        Vec3A::new(-1f32, 1f32, 2f32),
        Vec3A::new(2f32, -1f32, -1f32),
    ]);
    assert_eq!(min, Vec3A::new(-1f32, -1f32, -1f32));
    assert_eq!(max, Vec3A::new(2f32, 2f32, 2f32));
}

#[test]
fn aabb_bounds_and_is_tight() {
    let points = [
        Vec3A::new(3.5, -2.0, 0.25),
        Vec3A::new(-4.0, 7.0, 1.5),
        Vec3A::new(0.0, 0.5, -9.0),
        Vec3A::new(1.0, 1.0, 1.0),
    ];
    let (min, max) = calculate_aabb_from_points(&points);
    for p in &points {
        assert!(min.cmple(*p).all());
        assert!(p.cmple(max).all());
    }
    for axis in 0..3 {
        assert!(points.iter().any(|p| p[axis] == min[axis]));
        assert!(points.iter().any(|p| p[axis] == max[axis]));
    }
    assert_eq!(min, Vec3A::new(-4.0, -2.0, -9.0));
    assert_eq!(max, Vec3A::new(3.5, 7.0, 1.5));
}

#[test]
fn sphere_no_points() {
    let bounding_sphere = calculate_bounding_sphere_from_points(&[]);
    assert_eq!(Vec4::ZERO, bounding_sphere);
}

#[test]
fn sphere_single_point() {
    let points = vec![Vec3A::new(0.5f32, -0.5f32, -0.5f32)];

    let bounding_sphere = calculate_bounding_sphere_from_points(&points);
    assert!(sphere_contains_points(&points, bounding_sphere));
}

#[test]
fn sphere_three_points_on_a_line() {
    let points = vec![
        Vec3A::new(0f32, -1f32, 0f32),
        Vec3A::new(0f32, 0f32, 0f32),
        Vec3A::new(0f32, 1f32, 0f32),
    ];

    let center_radius = calculate_bounding_sphere_from_points(&points);
    assert_eq!(Vec3::ZERO, center_radius.xyz());
    assert_eq!(1f32, center_radius.w);
}

#[test]
fn sphere_rectangular_prism() {
    let points = vec![
        Vec3A::new(-10f32, -1f32, -1f32),
        Vec3A::new(-10f32, 1f32, -1f32),
        Vec3A::new(-10f32, -1f32, 1f32),
        Vec3A::new(-10f32, 1f32, 1f32),
        Vec3A::new(10f32, -1f32, -1f32),
        Vec3A::new(10f32, 1f32, -1f32),
        Vec3A::new(10f32, -1f32, 1f32),
        Vec3A::new(10f32, 1f32, 1f32),
    ];

    // Test an elongated prism.
    let bounding_sphere = calculate_bounding_sphere_from_points(&points);
    assert!(sphere_contains_points(&points, bounding_sphere));
}

#[test]
fn sphere_unit_cube() {
    let points = vec![
        Vec3A::new(0.5f32, -0.5f32, -0.5f32),
        Vec3A::new(0.5f32, -0.5f32, 0.5f32),
        Vec3A::new(-0.5f32, -0.5f32, 0.5f32),
        Vec3A::new(-0.5f32, -0.5f32, -0.5f32),
        Vec3A::new(0.5f32, 0.5f32, -0.5f32),
        Vec3A::new(0.5f32, 0.5f32, 0.5f32),
        Vec3A::new(-0.5f32, 0.5f32, 0.5f32),
        Vec3A::new(-0.5f32, 0.5f32, -0.5f32),
    ];

    // Check that all the corners are contained in the sphere.
    let bounding_sphere = calculate_bounding_sphere_from_points(&points);
    assert!(sphere_contains_points(&points, bounding_sphere));
}

#[test]
fn sphere_center_is_mean_and_radius_is_farthest() {
    let points = vec![
        Vec3A::new(1.0, 0.0, 0.0),
        Vec3A::new(3.0, 0.0, 0.0),
        Vec3A::new(2.0, 3.0, 0.0),
    ];
    let sphere = calculate_bounding_sphere_from_points(&points);
    assert_eq!(Vec3::new(2.0, 1.0, 0.0), sphere.xyz());
    assert_eq!(2.0, sphere.w);
}

#[test]
fn sphere_no_spheres() {
    let bounding_sphere = calculate_bounding_sphere_from_spheres(&[]);
    assert_eq!(Vec4::ZERO, bounding_sphere);
}

#[test]
fn sphere_single_sphere() {
    let spheres = vec![Vec4::new(0.1, 0.2, 0.3, 1.5)];

    let bounding_sphere = calculate_bounding_sphere_from_spheres(&spheres);
    assert!(sphere_contains_spheres(&spheres, bounding_sphere));
}

#[test]
fn sphere_multiple_spheres() {
    let spheres = vec![
        Vec4::new(0.1, 0.2, 0.3, 1.5),
        Vec4::new(-1.0, 5.0, 2.5, 3.2),
        Vec4::new(4.0, 5.0, 6.0, 10.5),
    ];

    let bounding_sphere = calculate_bounding_sphere_from_spheres(&spheres);
    assert!(sphere_contains_spheres(&spheres, bounding_sphere));
}

#[test]
fn sphere_spheres_on_a_line() {
    let spheres = vec![
        Vec4::new(0f32, -1f32, 0f32, 1.0),
        Vec4::new(0f32, 0f32, 0f32, 1.0),
        Vec4::new(0f32, 1f32, 0f32, 1.0),
    ];

    let center_radius = calculate_bounding_sphere_from_spheres(&spheres);
    assert_eq!(Vec3::ZERO, center_radius.xyz());
    assert_eq!(2f32, center_radius.w);
}

#[test]
fn sphere_contains_each_input_sphere() {
    let spheres = vec![
        Vec4::new(2.0, 0.0, 0.0, 0.5),
        Vec4::new(-2.0, 0.0, 0.0, 1.5),
        Vec4::new(0.0, 4.0, 1.0, 0.25),
    ];
    let sphere = calculate_bounding_sphere_from_spheres(&spheres);
    let center = sphere.xyz();
    for s in &spheres {
        assert!(center.distance(s.xyz()) + s.w <= sphere.w + 1e-4);
    }
}
