//! Smooth per-vertex normals.
use vstd::prelude::*;
use glam::Vec3A;
use crate::vecops::{
    all_eq, count, cross, is_cross, is_difference, is_normalized_or_zero, normalize_or_zero, vsub,
    zero,
};
use crate::vectors::{
    add_to_three, first_out_of_range, indices_in_range, is_added_at_three,
    is_first_out_of_range, zero_vectors, zeros,
};

verus! {

/// Why smooth normals could not be computed.
#[derive(Debug, Clone, Copy, PartialEq, Eq, Structural)]
pub enum SmoothNormalsError {
    /// The output buffer does not hold one normal per position.
    NormalCountMismatch { position_count: usize, normal_count: usize },
    /// An index refers to no position.
    IndexOutOfBounds { index: u32, vertex_count: usize },
}

/// `n` is a possible outcome of the unnormalized normal of the triangle `v1 v2 v3`,
/// `(v2 - v1) × (v3 - v1)`, which points towards a viewer that sees the vertices in
/// counter-clockwise order.
pub open spec fn is_face_normal(v1: Vec3A, v2: Vec3A, v3: Vec3A, n: Vec3A) -> bool {
    exists|u: Vec3A, w: Vec3A| #[trigger] is_cross(u, w, n) && is_difference(v2, v1, u) && is_difference(v3, v1, w)
}

/// `next` is `acc` after the normal of face `f` was added to the face's three vertices, in the
/// order of the face's indices.
pub open spec fn normal_step(
    positions: Seq<Vec3A>,
    indices: Seq<u32>,
    f: int,
    acc: Seq<Vec3A>,
    next: Seq<Vec3A>,
) -> bool {
    let a = indices[3 * f] as int;
    let b = indices[3 * f + 1] as int;
    let c = indices[3 * f + 2] as int;
    exists|n: Vec3A|
        #[trigger] is_face_normal(positions[a], positions[b], positions[c], n) && is_added_at_three(
            acc,
            a,
            b,
            c,
            n,
            next,
        )
}

/// `sums[f]` holds the per-vertex sums of the normals of the first `f` whole faces (three
/// consecutive indices each), starting from zero.
pub open spec fn normal_sums(positions: Seq<Vec3A>, indices: Seq<u32>, sums: Seq<Seq<Vec3A>>) -> bool {
    &&& sums.len() == indices.len() / 3 + 1
    &&& sums[0] == zeros(positions.len())
    &&& forall|f: int|
        0 <= f < indices.len() / 3 ==> #[trigger] normal_step(positions, indices, f, sums[f], sums[f + 1])
}

/// `out` holds a possible outcome of normalizing each vector of `sums` (zero where that is not
/// possible), and the zero vector wherever every lane of the sum is zero.
pub open spec fn is_normalized_each(sums: Seq<Vec3A>, out: Seq<Vec3A>) -> bool {
    &&& out.len() == sums.len()
    &&& forall|i: int|
        0 <= i < sums.len() ==> #[trigger] is_normalized_or_zero(sums[i], out[i]) && (all_eq(
            sums[i],
            zero(),
        ) ==> out[i] == zero())
}

/// Whether `out` is a possible outcome of the smooth normals of a mesh: the normal of every
/// whole face summed at its three vertices, then normalized per vertex.
pub open spec fn is_smooth_normals(positions: Seq<Vec3A>, indices: Seq<u32>, out: Seq<Vec3A>) -> bool {
    exists|sums: Seq<Seq<Vec3A>>|
        #[trigger] normal_sums(positions, indices, sums) && is_normalized_each(sums.last(), out)
}

/// Calculates the unnormalized normal of the triangle `v1 v2 v3`.
pub fn calculate_normal(v1: Vec3A, v2: Vec3A, v3: Vec3A) -> (r: Vec3A)
    ensures
        is_face_normal(v1, v2, v3, r),
{
    let u = vsub(v2, v1);
    let v = vsub(v3, v1);
    cross(u, v)
}

/// Calculates smooth per-vertex normals by averaging over the faces around each vertex.
/// `indices` holds triangle indices into `positions`; indices after the last whole triangle
/// are ignored, but every index must refer to a position.
/// If either of `positions` or `indices` is empty, the result is empty.
pub fn calculate_smooth_normals(positions: &[Vec3A], indices: &[u32]) -> (r: Result<
    Vec<Vec3A>,
    SmoothNormalsError,
>)
    ensures
        match r {
            Ok(normals) => if positions@.len() == 0 || indices@.len() == 0 {
                normals@.len() == 0
            } else {
                &&& indices_in_range(indices@, positions@.len())
                &&& is_smooth_normals(positions@, indices@, normals@)
            },
            Err(SmoothNormalsError::IndexOutOfBounds { index, vertex_count }) => {
                &&& positions@.len() != 0
                &&& indices@.len() != 0
                &&& vertex_count == positions@.len()
                &&& exists|k: int|
                    is_first_out_of_range(indices@, positions@.len(), k) && indices@[k] == index
            },
            Err(SmoothNormalsError::NormalCountMismatch { .. }) => false,
        },
{
    if positions.len() == 0 || indices.len() == 0 {
        return Ok(Vec::new());
    }
    let mut normals = zero_vectors(positions.len());
    match update_smooth_normals(positions, normals.as_mut_slice(), indices) {
        Ok(()) => Ok(normals),
        Err(e) => Err(e),
    }
}

/// Writes smooth per-vertex normals into `normals`, which must hold one vector per position.
/// What the buffer held is overwritten: the normal of each whole face is summed at the face's
/// three vertices, and then each sum is normalized (a zero sum stays zero).
/// On an error `normals` is left as it was.
pub fn update_smooth_normals(positions: &[Vec3A], normals: &mut [Vec3A], indices: &[u32]) -> (r:
    Result<(), SmoothNormalsError>)
    ensures
        match r {
            Ok(()) => {
                &&& old(normals)@.len() == positions@.len()
                &&& indices_in_range(indices@, positions@.len())
                &&& is_smooth_normals(positions@, indices@, final(normals)@)
            },
            Err(SmoothNormalsError::NormalCountMismatch { position_count, normal_count }) => {
                &&& position_count == positions@.len()
                &&& normal_count == old(normals)@.len()
                &&& position_count != normal_count
                &&& final(normals)@ == old(normals)@
            },
            Err(SmoothNormalsError::IndexOutOfBounds { index, vertex_count }) => {
                &&& old(normals)@.len() == positions@.len()
                &&& vertex_count == positions@.len()
                &&& exists|k: int|
                    is_first_out_of_range(indices@, positions@.len(), k) && indices@[k] == index
                &&& final(normals)@ == old(normals)@
            },
        },
{
    if normals.len() != positions.len() {
        return Err(
            SmoothNormalsError::NormalCountMismatch {
                position_count: positions.len(),
                normal_count: normals.len(),
            },
        );
    }
    match first_out_of_range(indices, positions.len()) {
        Some(k) => {
            return Err(
                SmoothNormalsError::IndexOutOfBounds {
                    index: indices[k],
                    vertex_count: positions.len(),
                },
            );
        },
        None => {},
    }
    let n = normals.len();
    let z = count(0);
    let mut i: usize = 0;
    while i < n
        invariant
            n == normals@.len(),
            i <= n,
            z == zero(),
            forall|j: int| 0 <= j < i ==> normals@[j] == zero(),
        decreases n - i,
    {
        normals[i] = z;
        i += 1;
    }
    assert(normals@ =~= zeros(n as nat));

    let ghost mut sums: Seq<Seq<Vec3A>> = seq![normals@];
    let faces = indices.len() / 3;
    let mut f: usize = 0;
    while f < faces
        invariant
            faces == indices@.len() / 3,
            f <= faces,
            positions@.len() == n,
            normals@.len() == n,
            indices_in_range(indices@, n as nat),
            sums.len() == f + 1,
            sums[0] == zeros(n as nat),
            sums[f as int] == normals@,
            forall|g: int| 0 <= g < f ==> #[trigger] normal_step(positions@, indices@, g, sums[g], sums[g + 1]),
        decreases faces - f,
    {
        assert(3 * f + 2 < indices@.len()) by (nonlinear_arith)
            requires
                f < faces,
                faces == indices@.len() / 3,
        ;
        assert(indices@.len() == indices.len());
        let a = indices[3 * f] as usize;
        let b = indices[3 * f + 1] as usize;
        let c = indices[3 * f + 2] as usize;
        let normal = calculate_normal(positions[a], positions[b], positions[c]);
        let ghost before = normals@;
        add_to_three(normals, a, b, c, normal);
        assert(is_face_normal(positions@[a as int], positions@[b as int], positions@[c as int], normal));
        assert(is_added_at_three(before, a as int, b as int, c as int, normal, normals@));
        assert(normal_step(positions@, indices@, f as int, before, normals@));
        proof {
            sums = sums.push(normals@);
        }
        f += 1;
    }
    assert(normal_sums(positions@, indices@, sums));

    let ghost acc = normals@;
    let mut i: usize = 0;
    while i < n
        invariant
            i <= n,
            normals@.len() == n,
            acc.len() == n,
            forall|j: int|
                0 <= j < i ==> #[trigger] is_normalized_or_zero(acc[j], normals@[j]) && (all_eq(
                    acc[j],
                    zero(),
                ) ==> normals@[j] == zero()),
            forall|j: int| i <= j < n ==> normals@[j] == acc[j],
        decreases n - i,
    {
        normals[i] = normalize_or_zero(normals[i]);
        i += 1;
    }
    assert(is_normalized_each(acc, normals@));
    Ok(())
}

} // verus!
