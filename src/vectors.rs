//! Normal, tangent and bitangent (binormal) vectors.
use vstd::prelude::*;
use glam::Vec3A;
use crate::vecops::{
    count, dot, is_difference, is_dot, is_normalized, is_product, is_sum, normalize, vadd, vmul,
    vsub, zero,
};

pub mod normal;
pub mod tangent;

pub use normal::{calculate_normal, calculate_smooth_normals, update_smooth_normals, SmoothNormalsError};
pub use tangent::{
    calculate_tangent_bitangent, calculate_tangent_w, calculate_tangents,
    calculate_tangents_bitangents, TangentBitangentError,
};

verus! {

/// Whether every index in `indices` refers to one of `vertex_count` vertices.
pub open spec fn indices_in_range(indices: Seq<u32>, vertex_count: nat) -> bool {
    forall|k: int| 0 <= k < indices.len() ==> indices[k] < vertex_count
}

/// Whether position `k` holds the first index in `indices` that refers to no vertex.
pub open spec fn is_first_out_of_range(indices: Seq<u32>, vertex_count: nat, k: int) -> bool {
    &&& 0 <= k < indices.len()
    &&& indices[k] >= vertex_count
    &&& forall|j: int| 0 <= j < k ==> indices[j] < vertex_count
}

/// The position of the first index that refers to none of `vertex_count` vertices, if any.
pub(crate) fn first_out_of_range(indices: &[u32], vertex_count: usize) -> (r: Option<usize>)
    ensures
        r is None <==> indices_in_range(indices@, vertex_count as nat),
        r matches Some(k) ==> is_first_out_of_range(indices@, vertex_count as nat, k as int),
{
    let mut k: usize = 0;
    while k < indices.len()
        invariant
            k <= indices@.len(),
            forall|j: int| 0 <= j < k ==> indices@[j] < vertex_count,
        decreases indices@.len() - k,
    {
        if indices[k] as usize >= vertex_count {
            return Some(k);
        }
        k += 1;
    }
    None
}

/// `r` is a possible outcome of `target` with its component along `source` removed, then
/// scaled to unit length (one Gram-Schmidt step; `source` is expected to have unit length).
pub open spec fn is_orthonormalized(target: Vec3A, source: Vec3A, r: Vec3A) -> bool {
    exists|d: Vec3A, p: Vec3A, e: Vec3A|
        #![trigger is_product(source, d, p), is_difference(target, p, e)]
        is_dot(source, target, d) && is_product(source, d, p) && is_difference(target, p, e)
            && is_normalized(e, r)
}

/// Returns a normalized vector based on `target` that is orthogonal to `source`, using the
/// Gram-Schmidt process.
pub fn orthonormalize(target: &Vec3A, source: &Vec3A) -> (r: Vec3A)
    ensures
        is_orthonormalized(*target, *source, r),
{
    normalize(vsub(*target, vmul(*source, dot(*source, *target))))
}

/// `n` zero vectors.
pub open spec fn zeros(n: nat) -> Seq<Vec3A> {
    Seq::new(n, |i: int| zero())
}

/// A zero vector for each of `n` vertices.
pub(crate) fn zero_vectors(n: usize) -> (r: Vec<Vec3A>)
    ensures
        r@ == zeros(n as nat),
{
    let z = count(0);
    let mut r: Vec<Vec3A> = Vec::new();
    while r.len() < n
        invariant
            r@.len() <= n,
            z == zero(),
            r@ == zeros(r@.len()),
        decreases n - r@.len(),
    {
        r.push(z);
        assert(r@ =~= zeros(r@.len()));
    }
    r
}

/// `next` is `acc` with a possible outcome of `acc[i] + x` at `i`.
pub open spec fn is_added_at(acc: Seq<Vec3A>, i: int, x: Vec3A, next: Seq<Vec3A>) -> bool {
    exists|s: Vec3A| #[trigger] is_sum(acc[i], x, s) && next == acc.update(i, s)
}

/// `next` is `acc` with `x` added at `a`, then at `b`, then at `c`.
pub open spec fn is_added_at_three(
    acc: Seq<Vec3A>,
    a: int,
    b: int,
    c: int,
    x: Vec3A,
    next: Seq<Vec3A>,
) -> bool {
    exists|acc1: Seq<Vec3A>, acc2: Seq<Vec3A>|
        #![trigger is_added_at(acc, a, x, acc1), is_added_at(acc2, c, x, next)]
        is_added_at(acc, a, x, acc1) && is_added_at(acc1, b, x, acc2) && is_added_at(acc2, c, x, next)
}

/// Adds `x` to the vectors at `a`, `b` and `c`, in that order.
pub(crate) fn add_to_three(acc: &mut [Vec3A], a: usize, b: usize, c: usize, x: Vec3A)
    requires
        a < old(acc)@.len(),
        b < old(acc)@.len(),
        c < old(acc)@.len(),
    ensures
        final(acc)@.len() == old(acc)@.len(),
        is_added_at_three(old(acc)@, a as int, b as int, c as int, x, final(acc)@),
{
    let ghost acc0 = acc@;
    let s = vadd(acc[a], x);
    acc[a] = s;
    let ghost acc1 = acc@;
    assert(is_added_at(acc0, a as int, x, acc1));
    let s = vadd(acc[b], x);
    acc[b] = s;
    let ghost acc2 = acc@;
    assert(is_added_at(acc1, b as int, x, acc2));
    let s = vadd(acc[c], x);
    acc[c] = s;
    assert(is_added_at(acc2, c as int, x, acc@));
}

} // verus!
