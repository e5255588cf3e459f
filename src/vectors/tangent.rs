//! Smooth per-vertex tangents and bitangents.
use vstd::prelude::*;
use glam::{Vec2, Vec3A, Vec4};
use crate::vecops::{
    all_eq, all_ge, axis, axis_vec, count, cross, dot, eq, extend, extended, ge, int_vec,
    integer, is_cross, is_difference, is_dot, is_normalized_or_zero, is_product, is_quotient,
    is_uv_difference, normalize_or_zero, one, u, u_of, uv_sub, v, v_of, vdiv, vmul, vsub, zero,
};
use crate::vectors::{
    add_to_three, first_out_of_range, indices_in_range, is_added_at_three,
    is_first_out_of_range, is_orthonormalized, orthonormalize, zero_vectors, zeros,
};

verus! {

/// Errors that can occur while calculating tangents or bitangents.
#[derive(Debug, Clone, Copy, PartialEq, Eq, Structural)]
pub enum TangentBitangentError {
    /// The position, normal and texture coordinate lists differ in length.
    AttributeCountMismatch { position_count: usize, normal_count: usize, uv_count: usize },
    /// The index count is not a multiple of 3.
    InvalidIndexCont { index_count: usize },
    /// An index refers to no vertex.
    IndexOutOfBounds { index: u32, vertex_count: usize },
}

/// The tangent used where the calculated one would have zero length: the x axis.
pub open spec fn default_tangent() -> Vec3A {
    axis_vec(0)
}

/// The bitangent used where the calculated one would have zero length: the y axis.
pub open spec fn default_bitangent() -> Vec3A {
    axis_vec(1)
}

/// `r` is `x`, or `fallback` where the squared length of `x` came out zero.
pub open spec fn is_or_default(x: Vec3A, fallback: Vec3A, r: Vec3A) -> bool {
    exists|sq: Vec3A| #[trigger] is_dot(x, x, sq) && r == if all_eq(sq, zero()) {
        fallback
    } else {
        x
    }
}

/// `r` is a possible outcome of the reciprocal of twice the signed area of the texture triangle
/// with edges `uv_a` and `uv_b`, `uv_a.u * uv_b.v - uv_b.u * uv_a.v`, or 1 where that came out
/// zero.
pub open spec fn is_uv_area_recip(uv_a: Vec2, uv_b: Vec2, r: Vec3A) -> bool {
    exists|p: Vec3A, q: Vec3A, div: Vec3A|
        #[trigger] is_difference(p, q, div) && is_product(u_of(uv_a), v_of(uv_b), p) && is_product(
            u_of(uv_b),
            v_of(uv_a),
            q,
        ) && if !all_eq(div, zero()) {
            is_quotient(one(), div, r)
        } else {
            r == one()
        }
}

/// `t` is a possible outcome of `(pos_a * uv_b.v - pos_b * uv_a.v) * r`.
pub open spec fn is_tangent_formula(
    pos_a: Vec3A,
    pos_b: Vec3A,
    uv_a: Vec2,
    uv_b: Vec2,
    r: Vec3A,
    t: Vec3A,
) -> bool {
    exists|x: Vec3A, y: Vec3A, z: Vec3A|
        #[trigger] is_difference(x, y, z) && is_product(pos_a, v_of(uv_b), x) && is_product(
            pos_b,
            v_of(uv_a),
            y,
        ) && is_product(z, r, t)
}

/// `b` is a possible outcome of `(pos_b * uv_a.u - pos_a * uv_b.u) * r`.
pub open spec fn is_bitangent_formula(
    pos_a: Vec3A,
    pos_b: Vec3A,
    uv_a: Vec2,
    uv_b: Vec2,
    r: Vec3A,
    b: Vec3A,
) -> bool {
    exists|x: Vec3A, y: Vec3A, z: Vec3A|
        #[trigger] is_difference(x, y, z) && is_product(pos_b, u_of(uv_a), x) && is_product(
            pos_a,
            u_of(uv_b),
            y,
        ) && is_product(z, r, b)
}

/// `(t, b)` is a possible outcome of the tangent and bitangent of the triangle `v0 v1 v2` with
/// texture coordinates `uv0 uv1 uv2`: from the edges `pos_a = v1 - v0`, `pos_b = v2 - v0`,
/// `uv_a = uv1 - uv0`, `uv_b = uv2 - uv0` and the area reciprocal, each replaced by its
/// default where its squared length came out zero.
pub open spec fn is_face_tangent_bitangent(
    v0: Vec3A,
    v1: Vec3A,
    v2: Vec3A,
    uv0: Vec2,
    uv1: Vec2,
    uv2: Vec2,
    t: Vec3A,
    b: Vec3A,
) -> bool {
    exists|pos_a: Vec3A, pos_b: Vec3A, uv_a: Vec2, uv_b: Vec2, r: Vec3A, t0: Vec3A, b0: Vec3A|
        #![trigger is_tangent_formula(pos_a, pos_b, uv_a, uv_b, r, t0), is_bitangent_formula(pos_a, pos_b, uv_a, uv_b, r, b0)]
        {
            &&& is_difference(v1, v0, pos_a)
            &&& is_difference(v2, v0, pos_b)
            &&& is_uv_difference(uv1, uv0, uv_a)
            &&& is_uv_difference(uv2, uv0, uv_b)
            &&& is_uv_area_recip(uv_a, uv_b, r)
            &&& is_tangent_formula(pos_a, pos_b, uv_a, uv_b, r, t0)
            &&& is_bitangent_formula(pos_a, pos_b, uv_a, uv_b, r, b0)
            &&& is_or_default(t0, default_tangent(), t)
            &&& is_or_default(b0, default_bitangent(), b)
        }
}

/// `ts_next` and `bs_next` are `ts` and `bs` after the tangent and the bitangent of face `f`
/// were added to the face's three vertices, in the order of the face's indices.
pub open spec fn frame_step(
    positions: Seq<Vec3A>,
    uvs: Seq<Vec2>,
    indices: Seq<u32>,
    f: int,
    ts: Seq<Vec3A>,
    bs: Seq<Vec3A>,
    ts_next: Seq<Vec3A>,
    bs_next: Seq<Vec3A>,
) -> bool {
    let a = indices[3 * f] as int;
    let b = indices[3 * f + 1] as int;
    let c = indices[3 * f + 2] as int;
    exists|t: Vec3A, bt: Vec3A|
        #[trigger] is_face_tangent_bitangent(
            positions[a],
            positions[b],
            positions[c],
            uvs[a],
            uvs[b],
            uvs[c],
            t,
            bt,
        ) && is_added_at_three(ts, a, b, c, t, ts_next) && is_added_at_three(bs, a, b, c, bt, bs_next)
}

/// `tsums[f]` and `bsums[f]` hold the per-vertex sums of the tangents and of the bitangents of
/// the first `f` faces, starting from zero.
pub open spec fn frame_sums(
    positions: Seq<Vec3A>,
    uvs: Seq<Vec2>,
    indices: Seq<u32>,
    tsums: Seq<Seq<Vec3A>>,
    bsums: Seq<Seq<Vec3A>>,
) -> bool {
    &&& tsums.len() == indices.len() / 3 + 1
    &&& bsums.len() == indices.len() / 3 + 1
    &&& tsums[0] == zeros(positions.len())
    &&& bsums[0] == zeros(positions.len())
    &&& forall|f: int|
        0 <= f < indices.len() / 3 ==> #[trigger] frame_step(
            positions,
            uvs,
            indices,
            f,
            tsums[f],
            bsums[f],
            tsums[f + 1],
            bsums[f + 1],
        )
}

/// `out` is a possible outcome of a summed tangent made ready for output: the default where it
/// is zero, then normalized.
pub open spec fn is_finished_tangent(t: Vec3A, out: Vec3A) -> bool {
    exists|t1: Vec3A| #[trigger] is_or_default(t, default_tangent(), t1) && is_normalized_or_zero(t1, out)
}

/// `out` is a possible outcome of a summed bitangent made ready for output: the default where
/// it is zero, then made orthogonal to `normal` unless their cross product came out zero, then
/// normalized.
pub open spec fn is_finished_bitangent(b: Vec3A, normal: Vec3A, out: Vec3A) -> bool {
    exists|b1: Vec3A, c: Vec3A, c2: Vec3A, b2: Vec3A|
        #![trigger is_cross(b1, normal, c), is_dot(c, c, c2), is_normalized_or_zero(b2, out)]
        {
            &&& is_or_default(b, default_bitangent(), b1)
            &&& is_cross(b1, normal, c)
            &&& is_dot(c, c, c2)
            &&& if !all_eq(c2, zero()) {
                is_orthonormalized(b1, normal, b2)
            } else {
                b2 == b1
            }
            &&& is_normalized_or_zero(b2, out)
        }
}

/// Whether `ts` and `bs` are possible per-vertex tangents and bitangents of a valid mesh.
pub open spec fn is_tangent_frames(
    positions: Seq<Vec3A>,
    normals: Seq<Vec3A>,
    uvs: Seq<Vec2>,
    indices: Seq<u32>,
    ts: Seq<Vec3A>,
    bs: Seq<Vec3A>,
) -> bool {
    exists|tsums: Seq<Seq<Vec3A>>, bsums: Seq<Seq<Vec3A>>|
        #[trigger] frame_sums(positions, uvs, indices, tsums, bsums) && {
            &&& ts.len() == positions.len()
            &&& bs.len() == positions.len()
            &&& forall|i: int|
                0 <= i < positions.len() ==> #[trigger] is_finished_tangent(tsums.last()[i], ts[i])
            &&& forall|i: int|
                0 <= i < positions.len() ==> #[trigger] is_finished_bitangent(
                    bsums.last()[i],
                    normals[i],
                    bs[i],
                )
        }
}

/// Whether the mesh is accepted: whole triangles, one normal and one texture coordinate per
/// position, and every index referring to a vertex.
pub open spec fn valid_mesh(
    position_count: nat,
    normal_count: nat,
    uv_count: nat,
    indices: Seq<u32>,
) -> bool {
    &&& indices.len() % 3 == 0
    &&& position_count == normal_count
    &&& normal_count == uv_count
    &&& indices_in_range(indices, position_count)
}

/// Whether `e` is the error reported for the mesh: the index count is checked first, then the
/// list lengths, then the indices in order.
pub open spec fn rejected_with(
    position_count: nat,
    normal_count: nat,
    uv_count: nat,
    indices: Seq<u32>,
    e: TangentBitangentError,
) -> bool {
    match e {
        TangentBitangentError::InvalidIndexCont { index_count } => {
            &&& indices.len() % 3 != 0
            &&& index_count == indices.len()
        },
        TangentBitangentError::AttributeCountMismatch { position_count: p, normal_count: n, uv_count: t } => {
            &&& indices.len() % 3 == 0
            &&& !(position_count == normal_count && normal_count == uv_count)
            &&& p == position_count
            &&& n == normal_count
            &&& t == uv_count
        },
        TangentBitangentError::IndexOutOfBounds { index, vertex_count } => {
            &&& indices.len() % 3 == 0
            &&& position_count == normal_count
            &&& normal_count == uv_count
            &&& vertex_count == position_count
            &&& exists|k: int| is_first_out_of_range(indices, position_count, k) && indices[k] == index
        },
    }
}

/// `w` is the tangent sign for a possible outcome of `(tangent × bitangent) · normal`: 1 where
/// it is at least zero, else -1.
pub open spec fn is_tangent_sign(tangent: Vec3A, bitangent: Vec3A, normal: Vec3A, w: i32) -> bool {
    exists|c: Vec3A, d: Vec3A|
        #![trigger is_cross(tangent, bitangent, c), is_dot(c, normal, d)]
        is_cross(tangent, bitangent, c) && is_dot(c, normal, d) && w == if all_ge(d, zero()) {
            1i32
        } else {
            -1i32
        }
}

/// `packed` is `tangent` with its tangent sign in the w component.
pub open spec fn is_packed_tangent(tangent: Vec3A, bitangent: Vec3A, normal: Vec3A, packed: Vec4) -> bool {
    exists|w: i32| #[trigger] is_tangent_sign(tangent, bitangent, normal, w) && packed == extended(tangent, int_vec(w))
}

/// `x`, or `fallback` where the squared length of `x` is zero.
fn or_default(x: Vec3A, fallback: Vec3A) -> (r: Vec3A)
    ensures
        is_or_default(x, fallback, r),
{
    let sq = dot(x, x);
    if eq(sq, count(0)) {
        fallback
    } else {
        x
    }
}

/// The reciprocal of twice the signed texture area, or 1 where that area is zero.
fn uv_area_recip(uv_a: &Vec2, uv_b: &Vec2) -> (r: Vec3A)
    ensures
        is_uv_area_recip(*uv_a, *uv_b, r),
{
    let div = vsub(vmul(u(*uv_a), v(*uv_b)), vmul(u(*uv_b), v(*uv_a)));

    // Avoid +/- infinity from a division by zero.
    if !eq(div, count(0)) {
        vdiv(count(1), div)
    } else {
        count(1)
    }
}

fn calculate_tangent(pos_a: &Vec3A, pos_b: &Vec3A, uv_a: &Vec2, uv_b: &Vec2, r: Vec3A) -> (t: Vec3A)
    ensures
        is_tangent_formula(*pos_a, *pos_b, *uv_a, *uv_b, r, t),
{
    vmul(vsub(vmul(*pos_a, v(*uv_b)), vmul(*pos_b, v(*uv_a))), r)
}

fn calculate_bitangent(pos_a: &Vec3A, pos_b: &Vec3A, uv_a: &Vec2, uv_b: &Vec2, r: Vec3A) -> (b: Vec3A)
    ensures
        is_bitangent_formula(*pos_a, *pos_b, *uv_a, *uv_b, r, b),
{
    vmul(vsub(vmul(*pos_b, u(*uv_a)), vmul(*pos_a, u(*uv_b))), r)
}

/// Calculates the tangent and bitangent of the triangle `v0 v1 v2` with texture coordinates
/// `uv0 uv1 uv2`. A zero texture area is handled as if its reciprocal were 1, and a result
/// of zero length is replaced by the default axis (x for the tangent, y for the bitangent).
pub fn calculate_tangent_bitangent(
    v0: &Vec3A,
    v1: &Vec3A,
    v2: &Vec3A,
    uv0: &Vec2,
    uv1: &Vec2,
    uv2: &Vec2,
) -> (r: (Vec3A, Vec3A))
    ensures
        is_face_tangent_bitangent(*v0, *v1, *v2, *uv0, *uv1, *uv2, r.0, r.1),
{
    let pos_a = vsub(*v1, *v0);
    let pos_b = vsub(*v2, *v0);

    let uv_a = uv_sub(*uv1, *uv0);
    let uv_b = uv_sub(*uv2, *uv0);

    let r = uv_area_recip(&uv_a, &uv_b);

    let tangent = calculate_tangent(&pos_a, &pos_b, &uv_a, &uv_b, r);
    let bitangent = calculate_bitangent(&pos_a, &pos_b, &uv_a, &uv_b, r);

    // Replace zero vectors by fixed orthogonal axes, which prevents black faces when
    // rendering tangent space normal maps.
    let t = or_default(tangent, axis(0));
    let b = or_default(bitangent, axis(1));
    (t, b)
}

/// A summed tangent made ready for output.
fn finish_tangent(t: Vec3A) -> (r: Vec3A)
    ensures
        is_finished_tangent(t, r),
{
    let fallback = axis(0);
    let t1 = or_default(t, fallback);
    assert(is_or_default(t, default_tangent(), t1));
    normalize_or_zero(t1)
}

/// A summed bitangent made ready for output.
fn finish_bitangent(b: Vec3A, normal: Vec3A) -> (r: Vec3A)
    ensures
        is_finished_bitangent(b, normal, r),
{
    let b1 = or_default(b, axis(1));
    // The default bitangent may be parallel to the normal.
    let c = cross(b1, normal);
    let c2 = dot(c, c);
    let b2 = if !eq(c2, count(0)) {
        orthonormalize(&b1, &normal)
    } else {
        b1
    };
    normalize_or_zero(b2)
}

/// Calculates smooth per-vertex tangents and bitangents by summing the tangents and bitangents
/// of the faces around each vertex. `indices` holds triangle indices into `positions`, which
/// must have as many `normals` and `uvs`. Sums of zero length are replaced by the default
/// axes; each bitangent is made orthogonal to its vertex's normal (unless parallel to it);
/// both are then normalized.
/// If `positions` and `indices` are both empty, the results are empty.
pub fn calculate_tangents_bitangents(
    positions: &[Vec3A],
    normals: &[Vec3A],
    uvs: &[Vec2],
    indices: &[u32],
) -> (r: Result<(Vec<Vec3A>, Vec<Vec3A>), TangentBitangentError>)
    ensures
        match r {
            Ok((tangents, bitangents)) => {
                &&& valid_mesh(positions@.len(), normals@.len(), uvs@.len(), indices@)
                &&& is_tangent_frames(positions@, normals@, uvs@, indices@, tangents@, bitangents@)
            },
            Err(e) => rejected_with(positions@.len(), normals@.len(), uvs@.len(), indices@, e),
        },
{
    if indices.len() % 3 != 0 {
        return Err(TangentBitangentError::InvalidIndexCont { index_count: indices.len() });
    }
    if !(positions.len() == normals.len() && normals.len() == uvs.len()) {
        return Err(
            TangentBitangentError::AttributeCountMismatch {
                position_count: positions.len(),
                normal_count: normals.len(),
                uv_count: uvs.len(),
            },
        );
    }
    match first_out_of_range(indices, positions.len()) {
        Some(k) => {
            return Err(
                TangentBitangentError::IndexOutOfBounds {
                    index: indices[k],
                    vertex_count: positions.len(),
                },
            );
        },
        None => {},
    }

    let n = positions.len();
    let mut tangents = zero_vectors(n);
    let mut bitangents = zero_vectors(n);
    let ghost mut tsums: Seq<Seq<Vec3A>> = seq![tangents@];
    let ghost mut bsums: Seq<Seq<Vec3A>> = seq![bitangents@];

    // Sum the vectors of the faces around each vertex.
    let faces = indices.len() / 3;
    let mut f: usize = 0;
    while f < faces
        invariant
            faces == indices@.len() / 3,
            f <= faces,
            n == positions@.len(),
            n == uvs@.len(),
            indices_in_range(indices@, n as nat),
            tangents@.len() == n,
            bitangents@.len() == n,
            tsums.len() == f + 1,
            bsums.len() == f + 1,
            tsums[0] == zeros(n as nat),
            bsums[0] == zeros(n as nat),
            tsums[f as int] == tangents@,
            bsums[f as int] == bitangents@,
            forall|g: int|
                0 <= g < f ==> #[trigger] frame_step(
                    positions@,
                    uvs@,
                    indices@,
                    g,
                    tsums[g],
                    bsums[g],
                    tsums[g + 1],
                    bsums[g + 1],
                ),
        decreases faces - f,
    {
        assert(3 * f + 2 < indices@.len()) by (nonlinear_arith)
            requires
                f < faces,
                faces == indices@.len() / 3,
        ;
        assert(indices@.len() == indices.len());
        let v0 = indices[3 * f] as usize;
        let v1 = indices[3 * f + 1] as usize;
        let v2 = indices[3 * f + 2] as usize;
        let (tangent, bitangent) = calculate_tangent_bitangent(
            &positions[v0],
            &positions[v1],
            &positions[v2],
            &uvs[v0],
            &uvs[v1],
            &uvs[v2],
        );
        let ghost ts = tangents@;
        let ghost bs = bitangents@;
        add_to_three(tangents.as_mut_slice(), v0, v1, v2, tangent);
        add_to_three(bitangents.as_mut_slice(), v0, v1, v2, bitangent);
        assert(is_face_tangent_bitangent(
            positions@[v0 as int],
            positions@[v1 as int],
            positions@[v2 as int],
            uvs@[v0 as int],
            uvs@[v1 as int],
            uvs@[v2 as int],
            tangent,
            bitangent,
        ));
        assert(is_added_at_three(ts, v0 as int, v1 as int, v2 as int, tangent, tangents@));
        assert(is_added_at_three(bs, v0 as int, v1 as int, v2 as int, bitangent, bitangents@));
        assert(frame_step(positions@, uvs@, indices@, f as int, ts, bs, tangents@, bitangents@));
        proof {
            tsums = tsums.push(tangents@);
            bsums = bsums.push(bitangents@);
        }
        f += 1;
    }
    assert(frame_sums(positions@, uvs@, indices@, tsums, bsums));

    // Even where the face vectors are not zero, their sum may be.
    let ghost ts = tangents@;
    let ghost bs = bitangents@;
    let mut i: usize = 0;
    while i < n
        invariant
            i <= n,
            n == normals@.len(),
            ts.len() == n,
            bs.len() == n,
            tangents@.len() == n,
            bitangents@.len() == n,
            forall|j: int| 0 <= j < i ==> #[trigger] is_finished_tangent(ts[j], tangents@[j]),
            forall|j: int|
                0 <= j < i ==> #[trigger] is_finished_bitangent(bs[j], normals@[j], bitangents@[j]),
            forall|j: int| i <= j < n ==> tangents@[j] == ts[j],
            forall|j: int| i <= j < n ==> bitangents@[j] == bs[j],
        decreases n - i,
    {
        let t = finish_tangent(tangents[i]);
        tangents.set(i, t);
        let b = finish_bitangent(bitangents[i], normals[i]);
        bitangents.set(i, b);
        i += 1;
    }
    assert(is_tangent_frames(positions@, normals@, uvs@, indices@, tangents@, bitangents@));
    Ok((tangents, bitangents))
}

/// Calculates the tangent sign, 1 or -1, often stored in the w component of a four component
/// tangent. It flips the bitangent generated as `normal × tangent * sign` where texture
/// coordinates are mirrored. A zero triple product gives 1, so that the generated bitangent is
/// never zero.
pub fn calculate_tangent_w(tangent: Vec3A, bitangent: Vec3A, normal: Vec3A) -> (r: i32)
    ensures
        is_tangent_sign(tangent, bitangent, normal, r),
        r == 1 || r == -1,
{
    let c = cross(tangent, bitangent);
    if ge(dot(c, normal), count(0)) {
        1
    } else {
        -1
    }
}

/// Calculates smooth per-vertex tangents as `calculate_tangents_bitangents` does, with the
/// tangent sign of each vertex in the w component. The bitangents can be generated from these
/// as `normal × tangent * w`, often by shader code.
pub fn calculate_tangents(
    positions: &[Vec3A],
    normals: &[Vec3A],
    uvs: &[Vec2],
    indices: &[u32],
) -> (r: Result<Vec<Vec4>, TangentBitangentError>)
    ensures
        match r {
            Ok(packed) => {
                &&& valid_mesh(positions@.len(), normals@.len(), uvs@.len(), indices@)
                &&& exists|ts: Seq<Vec3A>, bs: Seq<Vec3A>|
                    #[trigger] is_tangent_frames(positions@, normals@, uvs@, indices@, ts, bs) && {
                        &&& packed@.len() == ts.len()
                        &&& forall|i: int|
                            0 <= i < ts.len() ==> #[trigger] is_packed_tangent(
                                ts[i],
                                bs[i],
                                normals@[i],
                                packed@[i],
                            )
                    }
            },
            Err(e) => rejected_with(positions@.len(), normals@.len(), uvs@.len(), indices@, e),
        },
{
    let (tangents, bitangents) = match calculate_tangents_bitangents(positions, normals, uvs, indices) {
        Ok(frames) => frames,
        Err(e) => {
            return Err(e);
        },
    };
    let ghost ts = tangents@;
    let ghost bs = bitangents@;
    assert(ts.len() == positions@.len() && bs.len() == positions@.len());
    let mut packed: Vec<Vec4> = Vec::new();
    let mut i: usize = 0;
    while i < tangents.len()
        invariant
            i <= tangents@.len(),
            tangents@ == ts,
            bitangents@ == bs,
            ts.len() == bs.len(),
            ts.len() == normals@.len(),
            packed@.len() == i,
            forall|j: int|
                0 <= j < i ==> #[trigger] is_packed_tangent(ts[j], bs[j], normals@[j], packed@[j]),
        decreases ts.len() - i,
    {
        let w = calculate_tangent_w(tangents[i], bitangents[i], normals[i]);
        packed.push(extend(tangents[i], integer(w)));
        assert(is_packed_tangent(ts[i as int], bs[i as int], normals@[i as int], packed@[i as int]));
        i += 1;
    }
    Ok(packed)
}

} // verus!
