//! The vector operations of glam that the geometry routines are built from.
//!
//! glam's vectors are opaque here: each operation is a thin wrapper around one glam (or std)
//! function. Floating-point arithmetic need not give the same bits twice (the sign and payload
//! of a NaN result are not fixed, and a fused multiply-add may or may not be used), so an
//! arithmetic operation is described by a relation that holds of each of its possible outcomes
//! (`is_sum(a, b, r)`). Operations that only move, compare or convert values are functions
//! (`u_of(uv)`). The routines of this crate are then verified to combine these operations
//! exactly as they describe, whatever the floating-point values inside.
//!
//! A scalar is carried as a `Vec3A` whose lanes all hold it (as `dot_into_vec` returns it), so
//! that scalar arithmetic is glam's lane-wise arithmetic.
use vstd::prelude::*;
use glam::{Vec2, Vec3A, Vec4};

verus! {

#[verifier::external_type_specification]
#[verifier::external_body]
pub struct ExVec2(Vec2);

#[verifier::external_type_specification]
#[verifier::external_body]
pub struct ExVec3A(Vec3A);

#[verifier::external_type_specification]
#[verifier::external_body]
pub struct ExVec4(Vec4);

/// `r` is a possible outcome of `a + b`, lane by lane.
pub uninterp spec fn is_sum(a: Vec3A, b: Vec3A, r: Vec3A) -> bool;

/// `r` is a possible outcome of `a - b`, lane by lane.
pub uninterp spec fn is_difference(a: Vec3A, b: Vec3A, r: Vec3A) -> bool;

/// `r` is a possible outcome of `a * b`, lane by lane.
pub uninterp spec fn is_product(a: Vec3A, b: Vec3A, r: Vec3A) -> bool;

/// `r` is a possible outcome of `a / b`, lane by lane.
pub uninterp spec fn is_quotient(a: Vec3A, b: Vec3A, r: Vec3A) -> bool;

/// `r` is a possible outcome of the cross product `a × b` (with or without fused
/// multiply-add).
pub uninterp spec fn is_cross(a: Vec3A, b: Vec3A, r: Vec3A) -> bool;

/// `r` is a possible outcome of the dot product `a · b`, in every lane.
pub uninterp spec fn is_dot(a: Vec3A, b: Vec3A, r: Vec3A) -> bool;

/// `r` is a possible outcome of dividing `a` by its length.
pub uninterp spec fn is_normalized(a: Vec3A, r: Vec3A) -> bool;

/// `r` is a possible outcome of the lane-wise minimum of `a` and `b`.
pub uninterp spec fn is_min(a: Vec3A, b: Vec3A, r: Vec3A) -> bool;

/// `r` is a possible outcome of the lane-wise maximum of `a` and `b`.
pub uninterp spec fn is_max(a: Vec3A, b: Vec3A, r: Vec3A) -> bool;

/// `r` is a possible outcome of the square root of the first lane of `a`, in every lane.
pub uninterp spec fn is_sqrt(a: Vec3A, r: Vec3A) -> bool;

/// `r` is a possible outcome of the larger of the first lanes of `a` and `b` (a NaN
/// loses), in every lane.
pub uninterp spec fn is_larger(a: Vec3A, b: Vec3A, r: Vec3A) -> bool;

/// `r` is a possible outcome of `a` scaled to unit length, or of the zero vector where that is
/// not possible.
pub uninterp spec fn is_normalized_or_zero(a: Vec3A, r: Vec3A) -> bool;

/// `r` is a possible outcome of `a - b` for texture coordinates.
pub uninterp spec fn is_uv_difference(a: Vec2, b: Vec2, r: Vec2) -> bool;

/// Whether `a == b` holds in every lane.
pub uninterp spec fn all_eq(a: Vec3A, b: Vec3A) -> bool;

/// Whether `a >= b` holds in every lane.
pub uninterp spec fn all_ge(a: Vec3A, b: Vec3A) -> bool;

/// Whether `a > b` holds in every lane.
pub uninterp spec fn all_gt(a: Vec3A, b: Vec3A) -> bool;

/// The count `n` as a floating-point number, in every lane.
pub uninterp spec fn count_vec(n: usize) -> Vec3A;

/// The integer `n` as a floating-point number, in every lane.
pub uninterp spec fn int_vec(n: i32) -> Vec3A;

/// The unit vector along axis `i` (x, y, z for 0, 1, 2).
pub uninterp spec fn axis_vec(i: usize) -> Vec3A;

/// The u (x) coordinate of `a`, in every lane.
pub uninterp spec fn u_of(a: Vec2) -> Vec3A;

/// The v (y) coordinate of `a`, in every lane.
pub uninterp spec fn v_of(a: Vec2) -> Vec3A;

/// The x, y and z components of `s`.
pub uninterp spec fn xyz_of(s: Vec4) -> Vec3A;

/// The w component of `s`, in every lane.
pub uninterp spec fn w_of(s: Vec4) -> Vec3A;

/// The vector `(a.x, a.y, a.z, w.x)`.
pub uninterp spec fn extended(a: Vec3A, w: Vec3A) -> Vec4;

/// The zero vector.
pub open spec fn zero() -> Vec3A {
    count_vec(0)
}

/// The vector with 1 in every lane.
pub open spec fn one() -> Vec3A {
    count_vec(1)
}

/// Relies on `<glam::Vec3A as Add>::add`.
#[verifier::external_body]
pub(crate) fn vadd(a: Vec3A, b: Vec3A) -> (r: Vec3A)
    ensures
        is_sum(a, b, r),
{
    a + b
}

/// Relies on `<glam::Vec3A as Sub>::sub`.
#[verifier::external_body]
pub(crate) fn vsub(a: Vec3A, b: Vec3A) -> (r: Vec3A)
    ensures
        is_difference(a, b, r),
{
    a - b
}

/// Relies on `<glam::Vec3A as Mul>::mul`.
#[verifier::external_body]
pub(crate) fn vmul(a: Vec3A, b: Vec3A) -> (r: Vec3A)
    ensures
        is_product(a, b, r),
{
    a * b
}

/// Relies on `<glam::Vec3A as Div>::div`.
#[verifier::external_body]
pub(crate) fn vdiv(a: Vec3A, b: Vec3A) -> (r: Vec3A)
    ensures
        is_quotient(a, b, r),
{
    a / b
}

/// Relies on `glam::Vec3A::cross`.
#[verifier::external_body]
pub(crate) fn cross(a: Vec3A, b: Vec3A) -> (r: Vec3A)
    ensures
        is_cross(a, b, r),
{
    a.cross(b)
}

/// Relies on `glam::Vec3A::dot_into_vec`.
#[verifier::external_body]
pub(crate) fn dot(a: Vec3A, b: Vec3A) -> (r: Vec3A)
    ensures
        is_dot(a, b, r),
{
    a.dot_into_vec(b)
}

/// Relies on `glam::Vec3A::normalize`.
#[verifier::external_body]
pub(crate) fn normalize(a: Vec3A) -> (r: Vec3A)
    ensures
        is_normalized(a, r),
{
    a.normalize()
}

/// Relies on `glam::Vec3A::min`.
#[verifier::external_body]
pub(crate) fn vmin(a: Vec3A, b: Vec3A) -> (r: Vec3A)
    ensures
        is_min(a, b, r),
{
    a.min(b)
}

/// Relies on `glam::Vec3A::max`.
#[verifier::external_body]
pub(crate) fn vmax(a: Vec3A, b: Vec3A) -> (r: Vec3A)
    ensures
        is_max(a, b, r),
{
    a.max(b)
}

/// Relies on std's `f32::sqrt`, on the first lane.
#[verifier::external_body]
pub(crate) fn sqrt(a: Vec3A) -> (r: Vec3A)
    ensures
        is_sqrt(a, r),
{
    Vec3A::splat(a.x.sqrt())
}

/// Relies on std's `f32::max`, on the first lanes.
#[verifier::external_body]
pub(crate) fn larger(a: Vec3A, b: Vec3A) -> (r: Vec3A)
    ensures
        is_larger(a, b, r),
{
    Vec3A::splat(a.x.max(b.x))
}

/// Relies on `glam::Vec3A::normalize_or_zero`. Where every lane of `a` is zero, the reciprocal
/// of its length is infinite and glam returns `Vec3A::ZERO`, which is `splat(0.0)`.
#[verifier::external_body]
pub(crate) fn normalize_or_zero(a: Vec3A) -> (r: Vec3A)
    ensures
        is_normalized_or_zero(a, r),
        all_eq(a, count_vec(0)) ==> r == count_vec(0),
{
    a.normalize_or_zero()
}

/// Relies on `<glam::Vec2 as Sub>::sub`.
#[verifier::external_body]
pub(crate) fn uv_sub(a: Vec2, b: Vec2) -> (r: Vec2)
    ensures
        is_uv_difference(a, b, r),
{
    a - b
}

/// Relies on `<glam::Vec3A as PartialEq>::eq`, which compares all three lanes.
#[verifier::external_body]
pub(crate) fn eq(a: Vec3A, b: Vec3A) -> (r: bool)
    ensures
        r == all_eq(a, b),
{
    a == b
}

/// Relies on `glam::Vec3A::cmpge`; `BVec3A::all` turns the mask into a `bool`.
#[verifier::external_body]
pub(crate) fn ge(a: Vec3A, b: Vec3A) -> (r: bool)
    ensures
        r == all_ge(a, b),
{
    a.cmpge(b).all()
}

/// Relies on `glam::Vec3A::cmpgt`; `BVec3A::all` turns the mask into a `bool`.
#[verifier::external_body]
pub(crate) fn gt(a: Vec3A, b: Vec3A) -> (r: bool)
    ensures
        r == all_gt(a, b),
{
    a.cmpgt(b).all()
}

/// Relies on `glam::Vec3A::splat`, with the count converted by `as`.
#[verifier::external_body]
pub(crate) fn count(n: usize) -> (r: Vec3A)
    ensures
        r == count_vec(n),
{
    Vec3A::splat(n as _)
}

/// Relies on `glam::Vec3A::splat`, with the integer converted by `as` (exactly, for 1 and -1).
#[verifier::external_body]
pub(crate) fn integer(n: i32) -> (r: Vec3A)
    ensures
        r == int_vec(n),
{
    Vec3A::splat(n as _)
}

/// Relies on `glam::Vec3A::AXES`: `X`, `Y` and `Z` in that order.
#[verifier::external_body]
pub(crate) fn axis(i: usize) -> (r: Vec3A)
    requires
        i < 3,
    ensures
        r == axis_vec(i),
{
    Vec3A::AXES[i]
}

/// Relies on `glam::Vec3A::splat`, of the field `Vec2::x`.
#[verifier::external_body]
pub(crate) fn u(a: Vec2) -> (r: Vec3A)
    ensures
        r == u_of(a),
{
    Vec3A::splat(a.x)
}

/// Relies on `glam::Vec3A::splat`, of the field `Vec2::y`.
#[verifier::external_body]
pub(crate) fn v(a: Vec2) -> (r: Vec3A)
    ensures
        r == v_of(a),
{
    Vec3A::splat(a.y)
}

/// Relies on `glam::Vec3A::from_vec4`.
#[verifier::external_body]
pub(crate) fn xyz(s: Vec4) -> (r: Vec3A)
    ensures
        r == xyz_of(s),
{
    Vec3A::from_vec4(s)
}

/// Relies on `glam::Vec3A::splat`, of the field `Vec4::w`.
#[verifier::external_body]
pub(crate) fn w(s: Vec4) -> (r: Vec3A)
    ensures
        r == w_of(s),
{
    Vec3A::splat(s.w)
}

/// Relies on `glam::Vec3A::extend`, with the first lane of `w`.
#[verifier::external_body]
pub(crate) fn extend(a: Vec3A, w: Vec3A) -> (r: Vec4)
    ensures
        r == extended(a, w),
{
    a.extend(w.x)
}

} // verus!
