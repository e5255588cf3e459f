//! Bounding spheres and axis-aligned bounding boxes.
//!
//! Each result is described by the chain of glam operations that produces it: the
//! intermediate values (running sums, running maxima) exist, and each step relates them as
//! its operation does.
use vstd::prelude::*;
use glam::{Vec3A, Vec4};
use crate::vecops::{
    all_gt, count, count_vec, dot, extend, extended, gt, is_difference, is_dot, is_larger,
    is_max, is_min, is_quotient, is_sqrt, is_sum, larger, sqrt, vadd, vdiv, vmax, vmin, vsub, w,
    w_of, xyz, xyz_of, zero,
};

verus! {

/// `sums` holds the running sums of `points`, starting from zero.
pub open spec fn is_running_sum(points: Seq<Vec3A>, sums: Seq<Vec3A>) -> bool {
    &&& sums.len() == points.len() + 1
    &&& sums[0] == zero()
    &&& forall|k: int| 0 <= k < points.len() ==> #[trigger] is_sum(sums[k], points[k], sums[k + 1])
}

/// `d` is a possible outcome of the squared distance from `p` to `center`.
pub open spec fn is_distance_squared(p: Vec3A, center: Vec3A, d: Vec3A) -> bool {
    exists|e: Vec3A| #[trigger] is_difference(p, center, e) && is_dot(e, e, d)
}

/// The steps of the bounding sphere of non-empty `points`: `center` is the sum of the points
/// divided by their count; `dists[k]` is the squared distance from `points[k]` to it;
/// `farthest` keeps, from zero, each squared distance greater than the largest so far; and
/// `radius` is the square root of the last.
pub open spec fn points_sphere_steps(
    points: Seq<Vec3A>,
    sums: Seq<Vec3A>,
    center: Vec3A,
    dists: Seq<Vec3A>,
    farthest: Seq<Vec3A>,
    radius: Vec3A,
) -> bool {
    &&& is_running_sum(points, sums)
    &&& is_quotient(sums.last(), count_vec(points.len() as usize), center)
    &&& dists.len() == points.len()
    &&& farthest.len() == points.len() + 1
    &&& farthest[0] == zero()
    &&& forall|k: int|
        0 <= k < points.len() ==> #[trigger] is_distance_squared(points[k], center, dists[k])
    &&& forall|k: int|
        0 <= k < points.len() ==> #[trigger] farthest[k + 1] == if all_gt(dists[k], farthest[k]) {
            dists[k]
        } else {
            farthest[k]
        }
    &&& is_sqrt(farthest.last(), radius)
}

/// Whether `r` is a possible bounding sphere `(center, radius)` of `points`: zero for no
/// points, else the outcome of the steps above.
pub open spec fn is_sphere_around_points(points: Seq<Vec3A>, r: Vec4) -> bool {
    if points.len() == 0 {
        r == extended(zero(), zero())
    } else {
        exists|sums: Seq<Vec3A>, center: Vec3A, dists: Seq<Vec3A>, farthest: Seq<Vec3A>, radius: Vec3A|
            #[trigger] points_sphere_steps(points, sums, center, dists, farthest, radius) && r
                == extended(center, radius)
    }
}

/// `sums` holds the running sums of the centers of `spheres`, starting from zero.
pub open spec fn is_running_center_sum(spheres: Seq<Vec4>, sums: Seq<Vec3A>) -> bool {
    &&& sums.len() == spheres.len() + 1
    &&& sums[0] == zero()
    &&& forall|k: int|
        0 <= k < spheres.len() ==> #[trigger] is_sum(sums[k], xyz_of(spheres[k]), sums[k + 1])
}

/// `r` is a possible outcome of how far from `center` the sphere `s` reaches: the distance to
/// its center plus its radius.
pub open spec fn is_reach(s: Vec4, center: Vec3A, r: Vec3A) -> bool {
    exists|d: Vec3A, d2: Vec3A, dist: Vec3A|
        #![trigger is_dot(d, d, d2), is_sqrt(d2, dist)]
        is_difference(xyz_of(s), center, d) && is_dot(d, d, d2) && is_sqrt(d2, dist) && is_sum(
            dist,
            w_of(s),
            r,
        )
}

/// The steps of the bounding sphere of non-empty `spheres`: `center` is the sum of their
/// centers divided by their count; `reaches[k]` is how far `spheres[k]` reaches from it; and
/// `farthest` holds the running larger of the reaches.
pub open spec fn spheres_sphere_steps(
    spheres: Seq<Vec4>,
    sums: Seq<Vec3A>,
    center: Vec3A,
    reaches: Seq<Vec3A>,
    farthest: Seq<Vec3A>,
) -> bool {
    &&& is_running_center_sum(spheres, sums)
    &&& is_quotient(sums.last(), count_vec(spheres.len() as usize), center)
    &&& reaches.len() == spheres.len()
    &&& farthest.len() == spheres.len()
    &&& farthest[0] == reaches[0]
    &&& forall|k: int| 0 <= k < spheres.len() ==> #[trigger] is_reach(spheres[k], center, reaches[k])
    &&& forall|k: int|
        1 <= k < spheres.len() ==> #[trigger] is_larger(farthest[k - 1], reaches[k], farthest[k])
}

/// Whether `r` is a possible bounding sphere `(center, radius)` of `spheres`: zero for no
/// spheres, else the outcome of the steps above, with the largest reach as the radius.
pub open spec fn is_sphere_around_spheres(spheres: Seq<Vec4>, r: Vec4) -> bool {
    if spheres.len() == 0 {
        r == extended(zero(), zero())
    } else {
        exists|sums: Seq<Vec3A>, center: Vec3A, reaches: Seq<Vec3A>, farthest: Seq<Vec3A>|
            #[trigger] spheres_sphere_steps(spheres, sums, center, reaches, farthest) && r
                == extended(center, farthest.last())
    }
}

/// The steps of the bounding box of non-empty `points`: `mins` and `maxs` start at the first
/// point and take the lane-wise minimum and maximum with each point in turn.
pub open spec fn aabb_steps(points: Seq<Vec3A>, mins: Seq<Vec3A>, maxs: Seq<Vec3A>) -> bool {
    &&& mins.len() == points.len() + 1
    &&& maxs.len() == points.len() + 1
    &&& mins[0] == points[0]
    &&& maxs[0] == points[0]
    &&& forall|k: int| 0 <= k < points.len() ==> #[trigger] is_min(mins[k], points[k], mins[k + 1])
    &&& forall|k: int| 0 <= k < points.len() ==> #[trigger] is_max(maxs[k], points[k], maxs[k + 1])
}

/// Whether `r` is a possible bounding box `(min_xyz, max_xyz)` of `points`: zero for no points,
/// else the last values of the steps above.
pub open spec fn is_aabb(points: Seq<Vec3A>, r: (Vec3A, Vec3A)) -> bool {
    if points.len() == 0 {
        r == (zero(), zero())
    } else {
        exists|mins: Seq<Vec3A>, maxs: Seq<Vec3A>|
            #[trigger] aabb_steps(points, mins, maxs) && r == (mins.last(), maxs.last())
    }
}

/// The sum of `points`, added from the first to the last onto zero.
fn sum_points(points: &[Vec3A]) -> (r: Vec3A)
    ensures
        exists|sums: Seq<Vec3A>| #[trigger] is_running_sum(points@, sums) && sums.last() == r,
{
    let mut total = count(0);
    let ghost mut sums: Seq<Vec3A> = seq![total];
    let mut i: usize = 0;
    while i < points.len()
        invariant
            i <= points@.len(),
            sums.len() == i + 1,
            sums[0] == zero(),
            sums[i as int] == total,
            forall|k: int| 0 <= k < i ==> #[trigger] is_sum(sums[k], points@[k], sums[k + 1]),
        decreases points@.len() - i,
    {
        total = vadd(total, points[i]);
        proof {
            sums = sums.push(total);
        }
        i += 1;
    }
    assert(is_running_sum(points@, sums));
    total
}

/// How far from `center` the sphere `s` reaches.
fn reach(s: Vec4, center: Vec3A) -> (r: Vec3A)
    ensures
        is_reach(s, center, r),
{
    let d = vsub(xyz(s), center);
    let d2 = dot(d, d);
    let dist = sqrt(d2);
    vadd(dist, w(s))
}

/// Calculates a bounding sphere of the form `(center, radius)` that contains all the specified
/// points. The center is the mean of the points, so the result may be larger than the optimal
/// one. If `points` is empty, the center and radius are both zero.
pub fn calculate_bounding_sphere_from_points(points: &[Vec3A]) -> (r: Vec4)
    ensures
        is_sphere_around_points(points@, r),
{
    if points.len() == 0 {
        return extend(count(0), count(0));
    }

    // The mean is simple to compute; the center could be optimized further at a cost.
    let total = sum_points(points);
    let ghost sums = choose|sums: Seq<Vec3A>| is_running_sum(points@, sums) && sums.last() == total;
    let center = vdiv(total, count(points.len()));

    // The smallest radius that contains all points given that center.
    let mut radius_squared = count(0);
    let ghost mut dists: Seq<Vec3A> = Seq::empty();
    let ghost mut farthest: Seq<Vec3A> = seq![radius_squared];
    let mut i: usize = 0;
    while i < points.len()
        invariant
            i <= points@.len(),
            dists.len() == i,
            farthest.len() == i + 1,
            farthest[0] == zero(),
            farthest[i as int] == radius_squared,
            forall|k: int| 0 <= k < i ==> #[trigger] is_distance_squared(points@[k], center, dists[k]),
            forall|k: int|
                0 <= k < i ==> #[trigger] farthest[k + 1] == if all_gt(dists[k], farthest[k]) {
                    dists[k]
                } else {
                    farthest[k]
                },
        decreases points@.len() - i,
    {
        let d = vsub(points[i], center);
        let length_squared = dot(d, d);
        assert(is_distance_squared(points@[i as int], center, length_squared));
        if gt(length_squared, radius_squared) {
            radius_squared = length_squared;
        }
        proof {
            dists = dists.push(length_squared);
            farthest = farthest.push(radius_squared);
        }
        i += 1;
    }
    let radius = sqrt(radius_squared);
    assert(points_sphere_steps(points@, sums, center, dists, farthest, radius));
    extend(center, radius)
}

/// Calculates a bounding sphere of the form `(center, radius)` that contains all the specified
/// bounding spheres, each of the form `(center, radius)`. The center is the mean of their
/// centers, so the result may be larger than the optimal one. If `spheres` is empty, the
/// center and radius are both zero.
pub fn calculate_bounding_sphere_from_spheres(spheres: &[Vec4]) -> (r: Vec4)
    ensures
        is_sphere_around_spheres(spheres@, r),
{
    if spheres.len() == 0 {
        return extend(count(0), count(0));
    }

    let mut total = count(0);
    let ghost mut sums: Seq<Vec3A> = seq![total];
    let mut i: usize = 0;
    while i < spheres.len()
        invariant
            i <= spheres@.len(),
            sums.len() == i + 1,
            sums[0] == zero(),
            sums[i as int] == total,
            forall|k: int|
                0 <= k < i ==> #[trigger] is_sum(sums[k], xyz_of(spheres@[k]), sums[k + 1]),
        decreases spheres@.len() - i,
    {
        total = vadd(total, xyz(spheres[i]));
        proof {
            sums = sums.push(total);
        }
        i += 1;
    }
    assert(is_running_center_sum(spheres@, sums));
    let center = vdiv(total, count(spheres.len()));

    // The distance between the centers plus the radius of a sphere must not exceed the radius.
    let mut radius = reach(spheres[0], center);
    let ghost mut reaches: Seq<Vec3A> = seq![radius];
    let ghost mut farthest: Seq<Vec3A> = seq![radius];
    let mut i: usize = 1;
    while i < spheres.len()
        invariant
            1 <= i <= spheres@.len(),
            reaches.len() == i,
            farthest.len() == i,
            farthest[0] == reaches[0],
            farthest[i - 1] == radius,
            forall|k: int| 0 <= k < i ==> #[trigger] is_reach(spheres@[k], center, reaches[k]),
            forall|k: int|
                1 <= k < i ==> #[trigger] is_larger(farthest[k - 1], reaches[k], farthest[k]),
        decreases spheres@.len() - i,
    {
        let next = reach(spheres[i], center);
        radius = larger(radius, next);
        proof {
            reaches = reaches.push(next);
            farthest = farthest.push(radius);
        }
        i += 1;
    }
    assert(spheres_sphere_steps(spheres@, sums, center, reaches, farthest));
    extend(center, radius)
}

/// Calculates an axis-aligned bounding box of the form `(min_xyz, max_xyz)` that contains all
/// the specified points. If `points` is empty, both corners are zero.
pub fn calculate_aabb_from_points(points: &[Vec3A]) -> (r: (Vec3A, Vec3A))
    ensures
        is_aabb(points@, r),
{
    if points.len() == 0 {
        return (count(0), count(0));
    }
    let mut min_xyz = points[0];
    let mut max_xyz = points[0];
    let ghost mut mins: Seq<Vec3A> = seq![min_xyz];
    let ghost mut maxs: Seq<Vec3A> = seq![max_xyz];
    let mut i: usize = 0;
    while i < points.len()
        invariant
            0 < points@.len(),
            i <= points@.len(),
            mins.len() == i + 1,
            maxs.len() == i + 1,
            mins[0] == points@[0],
            maxs[0] == points@[0],
            mins[i as int] == min_xyz,
            maxs[i as int] == max_xyz,
            forall|k: int| 0 <= k < i ==> #[trigger] is_min(mins[k], points@[k], mins[k + 1]),
            forall|k: int| 0 <= k < i ==> #[trigger] is_max(maxs[k], points@[k], maxs[k + 1]),
        decreases points@.len() - i,
    {
        min_xyz = vmin(min_xyz, points[i]);
        max_xyz = vmax(max_xyz, points[i]);
        proof {
            mins = mins.push(min_xyz);
            maxs = maxs.push(max_xyz);
        }
        i += 1;
    }
    assert(aabb_steps(points@, mins, maxs));
    (min_xyz, max_xyz)
}

} // verus!
