use geometry_tools::vectors::{
    calculate_normal, calculate_smooth_normals, update_smooth_normals, SmoothNormalsError,
};
use glam::Vec3A;

const EPSILON: f32 = 0.0001;

fn close(expected: f32, actual: f32) -> bool {
    (expected - actual).abs() <= EPSILON
}

#[test]
fn positive_normal() {
    // Vertices facing the camera should be in counter-clockwise order.
    let v1 = Vec3A::new(-5f32, 5f32, 1f32);
    let v2 = Vec3A::new(-5f32, 0f32, 1f32);
    let v3 = Vec3A::new(0f32, 0f32, 1f32);
    let normal = calculate_normal(v1, v2, v3).normalize();

    assert_eq!(0f32, normal.x);
    assert_eq!(0f32, normal.y);
    assert_eq!(1f32, normal.z);
}

#[test]
fn negative_normal() {
    // Vertices facing the camera in clockwise order.
    let v1 = Vec3A::new(-5f32, 5f32, 1f32);
    let v2 = Vec3A::new(-5f32, 0f32, 1f32);
    let v3 = Vec3A::new(0f32, 0f32, 1f32);
    let normal = calculate_normal(v3, v2, v1).normalize();

    assert_eq!(0f32, normal.x);
    assert_eq!(0f32, normal.y);
    assert_eq!(-1f32, normal.z);
}

#[test]
fn face_normal_is_unnormalized_cross_product() {
    let v1 = Vec3A::new(0.0, 0.0, 0.0);
    let v2 = Vec3A::new(2.0, 0.0, 0.0);
    let v3 = Vec3A::new(0.0, 3.0, 0.0);
    assert_eq!(Vec3A::new(0.0, 0.0, 6.0), calculate_normal(v1, v2, v3));
}

#[test]
fn smooth_normals_no_points_no_indices() {
    let normals = calculate_smooth_normals(&[], &[]).unwrap();
    assert!(normals.is_empty());
}

#[test]
fn smooth_normals_no_points() {
    let normals = calculate_smooth_normals(&[], &[0, 1, 2]).unwrap();
    assert!(normals.is_empty());
}

#[test]
fn smooth_normals_no_indices() {
    let points = vec![
        Vec3A::new(1f32, 0f32, 0f32),
        Vec3A::new(0f32, 1f32, 0f32),
        Vec3A::new(0f32, 0f32, 1f32),
    ];

    let normals = calculate_smooth_normals(&points, &[]).unwrap();
    assert!(normals.is_empty());
}

#[test]
fn smooth_normals_three_points() {
    let points = vec![
        Vec3A::new(1f32, 0f32, 0f32),
        Vec3A::new(0f32, 1f32, 0f32),
        Vec3A::new(0f32, 0f32, 1f32),
    ];

    let normals = calculate_smooth_normals(&points, &[0, 1, 2]).unwrap();

    // Ensure vectors are normalized.
    assert!(close(1f32, normals[0].length()));
    assert!(close(1f32, normals[1].length()));
    assert!(close(1f32, normals[2].length()));
}

#[test]
fn smooth_normals_zero_normal() {
    let points = vec![Vec3A::X, Vec3A::X, Vec3A::X];

    let normals = calculate_smooth_normals(&points, &[0, 1, 2]).unwrap();

    // Check for divide by 0 when normalizing.
    for normal in normals {
        assert!(close(0.0, normal.x));
        assert!(close(0.0, normal.y));
        assert!(close(0.0, normal.z));
    }
}

#[test]
fn smooth_normals_ffi() {
    let pos = [Vec3A::ONE, Vec3A::ONE];
    let mut nrm = [Vec3A::ONE, Vec3A::ONE];
    let indices = [0, 1, 0, 1, 0, 1, 1, 1, 0];
    update_smooth_normals(&pos, &mut nrm, &indices).unwrap();
    // The buffer is overwritten: every face is degenerate, so the normals are zero.
    assert_eq!(nrm[0], Vec3A::ZERO);
    assert_eq!(nrm[1], Vec3A::ZERO);
}

#[test]
fn update_smooth_normals_overwrites_buffer() {
    let pos = [
        Vec3A::new(0.0, 0.0, 0.0),
        Vec3A::new(1.0, 0.0, 0.0),
        Vec3A::new(0.0, 1.0, 0.0),
    ];
    let mut nrm = [Vec3A::new(5.0, -3.0, 2.0); 3];
    update_smooth_normals(&pos, &mut nrm, &[0, 1, 2]).unwrap();
    assert_eq!([Vec3A::Z, Vec3A::Z, Vec3A::Z], nrm);
}

#[test]
fn smooth_normals_average_adjacent_faces() {
    // Two faces sharing the edge 1-2: one in the xy plane, one in the xz plane.
    let points = vec![
        Vec3A::new(0.0, 0.0, 0.0),
        Vec3A::new(1.0, 0.0, 0.0),
        Vec3A::new(0.0, 1.0, 0.0),
        Vec3A::new(0.0, 0.0, 1.0),
    ];
    let normals = calculate_smooth_normals(&points, &[0, 1, 2, 0, 3, 1]).unwrap();
    assert_eq!(4, normals.len());
    assert_eq!(Vec3A::new(0.0, 0.0, 1.0), normals[2]);
    assert_eq!(Vec3A::new(0.0, 1.0, 0.0), normals[3]);
    let both = Vec3A::new(0.0, 1.0, 1.0).normalize();
    assert!(close(both.y, normals[0].y) && close(both.z, normals[0].z) && close(0.0, normals[0].x));
    assert!(close(both.y, normals[1].y) && close(both.z, normals[1].z) && close(0.0, normals[1].x));
}

#[test]
fn smooth_normals_unused_vertex_is_zero() {
    let points = vec![
        Vec3A::new(0.0, 0.0, 0.0),
        Vec3A::new(1.0, 0.0, 0.0),
        Vec3A::new(0.0, 1.0, 0.0),
        Vec3A::new(5.0, 5.0, 5.0),
    ];
    let normals = calculate_smooth_normals(&points, &[0, 1, 2]).unwrap();
    assert_eq!(Vec3A::ZERO, normals[3]);
    assert_eq!(Vec3A::Z, normals[0]);
}

#[test]
fn smooth_normals_ignore_incomplete_face() {
    let points = vec![
        Vec3A::new(0.0, 0.0, 0.0),
        Vec3A::new(1.0, 0.0, 0.0),
        Vec3A::new(0.0, 1.0, 0.0),
    ];
    let normals = calculate_smooth_normals(&points, &[0, 1, 2, 2, 1]).unwrap();
    assert_eq!(vec![Vec3A::Z, Vec3A::Z, Vec3A::Z], normals);
}

#[test]
fn smooth_normals_index_out_of_bounds() {
    let points = vec![Vec3A::X, Vec3A::Y, Vec3A::Z];
    let result = calculate_smooth_normals(&points, &[0, 1, 2, 2, 7, 3]);
    assert_eq!(
        Err(SmoothNormalsError::IndexOutOfBounds {
            index: 7,
            vertex_count: 3
        }),
        result
    );
}

#[test]
fn update_smooth_normals_length_mismatch() {
    let pos = [Vec3A::X, Vec3A::Y, Vec3A::Z];
    let mut nrm = [Vec3A::ONE, Vec3A::ONE];
    let result = update_smooth_normals(&pos, &mut nrm, &[0, 1, 2]);
    assert_eq!(
        Err(SmoothNormalsError::NormalCountMismatch {
            position_count: 3,
            normal_count: 2
        }),
        result
    );
    assert_eq!([Vec3A::ONE, Vec3A::ONE], nrm);
}

#[test]
fn update_smooth_normals_bad_index_leaves_buffer() {
    let pos = [Vec3A::X, Vec3A::Y];
    let mut nrm = [Vec3A::ONE, Vec3A::ONE];
    let result = update_smooth_normals(&pos, &mut nrm, &[0, 1, 2]);
    assert_eq!(
        Err(SmoothNormalsError::IndexOutOfBounds {
            index: 2,
            vertex_count: 2
        }),
        result
    );
    assert_eq!([Vec3A::ONE, Vec3A::ONE], nrm);
}
