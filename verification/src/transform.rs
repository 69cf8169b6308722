//! Building rotations, composing them with a quaternion, and reading the
//! Euler angles back.
use vstd::prelude::*;
use crate::create::create_spec;
use crate::mul::hamilton;
use crate::scalar::{reciprocal, reciprocal_spec, zero_is_exact, Scalar};

verus! {

/// The scalar two.
pub open spec fn two<T: Scalar>() -> T {
    T::from_isize_spec(2)
}

/// The scalar four.
pub open spec fn four<T: Scalar>() -> T {
    T::from_isize_spec(4)
}

/// Half of `angle`: the angle whose sine and cosine make up a rotation
/// quaternion.
pub open spec fn half_angle<T: Scalar>(angle: T) -> T {
    angle.div_spec(two())
}

/// The two operands of the arc tangent that gives the rotation about x:
/// `2*x*w + 2*y*z` and `1 - 2*(x*x + y*y)`.
pub open spec fn rotation_x_parts_spec<T: Scalar>(q: Seq<T>) -> (T, T)
    recommends
        q.len() == 4,
{
    (
        two::<T>().mul_spec(q[0]).mul_spec(q[3]).add_spec(two::<T>().mul_spec(q[1]).mul_spec(q[2])),
        T::one_spec().sub_spec(
            two::<T>().mul_spec(q[0].mul_spec(q[0]).add_spec(q[1].mul_spec(q[1]))),
        ),
    )
}

/// `theta` held within `[-1, 1]`, the domain of the arc sine.
pub open spec fn unit_clamped<T: Scalar>(theta: T) -> T {
    if theta.lt_spec(T::one_spec().neg_spec()) {
        T::one_spec().neg_spec()
    } else if T::one_spec().lt_spec(theta) {
        T::one_spec()
    } else {
        theta
    }
}

/// The operand of the arc sine that gives the rotation about y:
/// `2*(x*z + w*y)`, held within `[-1, 1]`.
pub open spec fn rotation_y_sine_spec<T: Scalar>(q: Seq<T>) -> T
    recommends
        q.len() == 4,
{
    unit_clamped(two::<T>().mul_spec(q[0].mul_spec(q[2]).add_spec(q[3].mul_spec(q[1]))))
}

/// The two operands of the arc tangent that gives the rotation about z:
/// `2*x*y + 2*z*w` and `1 - 2*(y*y + z*z)`.
pub open spec fn rotation_z_parts_spec<T: Scalar>(q: Seq<T>) -> (T, T)
    recommends
        q.len() == 4,
{
    (
        two::<T>().mul_spec(q[0]).mul_spec(q[1]).add_spec(two::<T>().mul_spec(q[2]).mul_spec(q[3])),
        T::one_spec().sub_spec(
            two::<T>().mul_spec(q[1].mul_spec(q[1]).add_spec(q[2].mul_spec(q[2]))),
        ),
    )
}

/// `a` times the rotation about x whose half angle has sine `bx` and cosine
/// `bw`: the Hamilton product of `a` and `(bx, 0, 0, bw)`, without the terms
/// that the two zeros cancel.
pub open spec fn rotate_x_by_spec<T: Scalar>(a: Seq<T>, bx: T, bw: T) -> Seq<T>
    recommends
        a.len() == 4,
{
    seq![
        a[0].mul_spec(bw).add_spec(a[3].mul_spec(bx)),
        a[1].mul_spec(bw).add_spec(a[2].mul_spec(bx)),
        a[2].mul_spec(bw).sub_spec(a[1].mul_spec(bx)),
        a[3].mul_spec(bw).sub_spec(a[0].mul_spec(bx)),
    ]
}

/// `a` times the rotation about y whose half angle has sine `by` and cosine
/// `bw`.
pub open spec fn rotate_y_by_spec<T: Scalar>(a: Seq<T>, by: T, bw: T) -> Seq<T>
    recommends
        a.len() == 4,
{
    seq![
        a[0].mul_spec(bw).sub_spec(a[2].mul_spec(by)),
        a[1].mul_spec(bw).add_spec(a[3].mul_spec(by)),
        a[2].mul_spec(bw).add_spec(a[0].mul_spec(by)),
        a[3].mul_spec(bw).sub_spec(a[1].mul_spec(by)),
    ]
}

/// `a` times the rotation about z whose half angle has sine `bz` and cosine
/// `bw`.
pub open spec fn rotate_z_by_spec<T: Scalar>(a: Seq<T>, bz: T, bw: T) -> Seq<T>
    recommends
        a.len() == 4,
{
    seq![
        a[0].mul_spec(bw).add_spec(a[1].mul_spec(bz)),
        a[1].mul_spec(bw).sub_spec(a[0].mul_spec(bz)),
        a[2].mul_spec(bw).add_spec(a[3].mul_spec(bz)),
        a[3].mul_spec(bw).sub_spec(a[2].mul_spec(bz)),
    ]
}

/// Whether `out` is `a` turned about x by `angle`: by a sine and a cosine of
/// half of `angle`.
pub open spec fn is_rotate_x<T: Scalar>(a: Seq<T>, angle: T, out: Seq<T>) -> bool {
    exists|bx: T, bw: T|
        {
            &&& #[trigger] half_angle(angle).sine_is(bx)
            &&& #[trigger] half_angle(angle).cosine_is(bw)
            &&& out == rotate_x_by_spec(a, bx, bw)
        }
}

/// Whether `out` is `a` turned about y by `angle`.
pub open spec fn is_rotate_y<T: Scalar>(a: Seq<T>, angle: T, out: Seq<T>) -> bool {
    exists|by: T, bw: T|
        {
            &&& #[trigger] half_angle(angle).sine_is(by)
            &&& #[trigger] half_angle(angle).cosine_is(bw)
            &&& out == rotate_y_by_spec(a, by, bw)
        }
}

/// Whether `out` is `a` turned about z by `angle`.
pub open spec fn is_rotate_z<T: Scalar>(a: Seq<T>, angle: T, out: Seq<T>) -> bool {
    exists|bz: T, bw: T|
        {
            &&& #[trigger] half_angle(angle).sine_is(bz)
            &&& #[trigger] half_angle(angle).cosine_is(bw)
            &&& out == rotate_z_by_spec(a, bz, bw)
        }
}

/// Whether `out` is `a` turned about z by `z`, then about x by `x`, then about
/// y by `y`.
pub open spec fn is_rotate<T: Scalar>(a: Seq<T>, x: T, y: T, z: T, out: Seq<T>) -> bool {
    exists|first: Seq<T>, second: Seq<T>|
        {
            &&& #[trigger] is_rotate_z(a, z, first)
            &&& #[trigger] is_rotate_x(first, x, second)
            &&& is_rotate_y(second, y, out)
        }
}

/// `2 * (1 + up . forward)`, the dot product added term by term from the
/// left.
pub open spec fn look_scale<T: Scalar>(forward: Seq<T>, up: Seq<T>) -> T
    recommends
        forward.len() == 3,
        up.len() == 3,
{
    T::one_spec().add_spec(up[0].mul_spec(forward[0])).add_spec(
        up[1].mul_spec(forward[1]),
    ).add_spec(up[2].mul_spec(forward[2])).mul_spec(two())
}

/// The quaternion that looks along `forward` with `up` upward: the cross
/// product `up x forward` times the reciprocal of the squared `look_scale`, or
/// times zero where that square compares equal to zero, and half that square
/// as `w`.
pub open spec fn look_rotation_spec<T: Scalar>(forward: Seq<T>, up: Seq<T>) -> Seq<T>
    recommends
        forward.len() == 3,
        up.len() == 3,
{
    let d = look_scale(forward, up);
    let dsq = d.mul_spec(d);
    let s = reciprocal_spec(dsq);
    seq![
        up[1].mul_spec(forward[2]).sub_spec(up[2].mul_spec(forward[1])).mul_spec(s),
        up[2].mul_spec(forward[0]).sub_spec(up[0].mul_spec(forward[2])).mul_spec(s),
        up[0].mul_spec(forward[1]).sub_spec(up[1].mul_spec(forward[0])).mul_spec(s),
        dsq.div_spec(two()),
    ]
}

/// The rotation about `axis` whose half angle has sine `s` and cosine `c`:
/// `(axis * s, c)`.
pub open spec fn from_axis_sin_cos_spec<T: Scalar>(axis: Seq<T>, s: T, c: T) -> Seq<T>
    recommends
        axis.len() == 3,
{
    seq![axis[0].mul_spec(s), axis[1].mul_spec(s), axis[2].mul_spec(s), c]
}

/// Whether `out` is the rotation about `axis` by `angle`.
pub open spec fn is_from_axis_angle<T: Scalar>(axis: Seq<T>, angle: T, out: Seq<T>) -> bool {
    exists|s: T, c: T|
        {
            &&& #[trigger] half_angle(angle).sine_is(s)
            &&& #[trigger] half_angle(angle).cosine_is(c)
            &&& out == from_axis_sin_cos_spec(axis, s, c)
        }
}

/// The diagonal term that the conversion from a rotation matrix divides by.
#[derive(Clone, Copy, Debug, PartialEq, Eq, Structural)]
pub enum Pivot {
    /// The trace is positive: `w` is the largest component.
    Trace,
    /// `m11` is the largest of the diagonal: `x` is the largest component.
    M11,
    /// `m22` is: `y` is the largest component.
    M22,
    /// `m33` is: `z` is the largest component.
    M33,
}

/// The pivot for a diagonal `m11`, `m22`, `m33`: the trace `m11 + m22 + m33`
/// where that is above zero; else `m11` where it is above both others; else
/// `m22` where it is above `m33`; else `m33`.
pub open spec fn pivot_spec<T: Scalar>(m11: T, m22: T, m33: T) -> Pivot {
    if T::zero_spec().lt_spec(m11.add_spec(m22).add_spec(m33)) {
        Pivot::Trace
    } else if m22.lt_spec(m11) && m33.lt_spec(m11) {
        Pivot::M11
    } else if m33.lt_spec(m22) {
        Pivot::M22
    } else {
        Pivot::M33
    }
}

/// The number that the conversion takes the square root of. With the pivot
/// on the trace it is `trace + 1`; with the pivot on a term of the diagonal it
/// is one plus that term minus the other two, subtracted in the order of the
/// diagonal. Where arithmetic is exact it is never below one: the pivot is
/// chosen for that.
pub open spec fn radicand_spec<T: Scalar>(m11: T, m22: T, m33: T) -> T {
    match pivot_spec(m11, m22, m33) {
        Pivot::Trace => m11.add_spec(m22).add_spec(m33).add_spec(T::one_spec()),
        Pivot::M11 => T::one_spec().add_spec(m11).sub_spec(m22).sub_spec(m33),
        Pivot::M22 => T::one_spec().add_spec(m22).sub_spec(m11).sub_spec(m33),
        Pivot::M33 => T::one_spec().add_spec(m33).sub_spec(m11).sub_spec(m22),
    }
}

/// The quaternion of the rotation matrix with rows `(m11, m12, m13)`,
/// `(m21, m22, m23)`, `(m31, m32, m33)`.
///
/// With `root` the square root of `radicand_spec`: on the trace, `s` is a
/// half over `root`, `w` is a quarter over `s`, and `x`, `y`, `z` are
/// differences across the diagonal times `s`. On a term of the diagonal, `s`
/// is twice `root`, the component of that term is `s` over four, and the
/// other three are sums or differences across the diagonal times one over `s`.
pub open spec fn from_mat_spec<T: Scalar>(
    m11: T,
    m12: T,
    m13: T,
    m21: T,
    m22: T,
    m23: T,
    m31: T,
    m32: T,
    m33: T,
) -> Seq<T> {
    let root = radicand_spec(m11, m22, m33).sqrt_spec();
    let s = two::<T>().mul_spec(root);
    let inv_s = T::one_spec().div_spec(s);
    match pivot_spec(m11, m22, m33) {
        Pivot::Trace => {
            let s = T::half_spec().div_spec(root);
            seq![
                m32.sub_spec(m23).mul_spec(s),
                m13.sub_spec(m31).mul_spec(s),
                m21.sub_spec(m12).mul_spec(s),
                T::quarter_spec().div_spec(s),
            ]
        },
        Pivot::M11 => seq![
            s.div_spec(four()),
            m12.add_spec(m21).mul_spec(inv_s),
            m13.add_spec(m31).mul_spec(inv_s),
            m32.sub_spec(m23).mul_spec(inv_s),
        ],
        Pivot::M22 => seq![
            m12.add_spec(m21).mul_spec(inv_s),
            s.div_spec(four()),
            m23.add_spec(m32).mul_spec(inv_s),
            m13.sub_spec(m31).mul_spec(inv_s),
        ],
        Pivot::M33 => seq![
            m13.add_spec(m31).mul_spec(inv_s),
            m23.add_spec(m32).mul_spec(inv_s),
            s.div_spec(four()),
            m21.sub_spec(m12).mul_spec(inv_s),
        ],
    }
}

/// The two operands of the arc tangent that `rotation_x` takes:
/// `2*x*w + 2*y*z` and `1 - 2*(x*x + y*y)`.
pub fn rotation_x_parts<T: Scalar>(out: &[T; 4]) -> (r: (T, T))
    ensures
        r == rotation_x_parts_spec(out@),
{
    (
        T::from_isize(2).mul(out[0]).mul(out[3]).add(T::from_isize(2).mul(out[1]).mul(out[2])),
        T::one().sub(T::from_isize(2).mul(out[0].mul(out[0]).add(out[1].mul(out[1])))),
    )
}

/// The operand of the arc sine that `rotation_y` takes: `2*(x*z + w*y)`, held
/// within `[-1, 1]` so that no rounding error takes it out of the arc sine's
/// domain.
pub fn rotation_y_sine<T: Scalar>(out: &[T; 4]) -> (r: T)
    ensures
        r == rotation_y_sine_spec(out@),
{
    let theta = T::from_isize(2).mul(out[0].mul(out[2]).add(out[3].mul(out[1])));
    if theta.lt(T::one().neg()) {
        T::one().neg()
    } else if T::one().lt(theta) {
        T::one()
    } else {
        theta
    }
}

/// The two operands of the arc tangent that `rotation_z` takes:
/// `2*x*y + 2*z*w` and `1 - 2*(y*y + z*z)`.
pub fn rotation_z_parts<T: Scalar>(out: &[T; 4]) -> (r: (T, T))
    ensures
        r == rotation_z_parts_spec(out@),
{
    (
        T::from_isize(2).mul(out[0]).mul(out[1]).add(T::from_isize(2).mul(out[2]).mul(out[3])),
        T::one().sub(T::from_isize(2).mul(out[1].mul(out[1]).add(out[2].mul(out[2])))),
    )
}

/// The angle of the unit quaternion `out` about the x axis: the arc tangent
/// of `rotation_x_parts`. It is zero for the identity, and the angle itself
/// for a turn about x alone.
#[inline(always)]
pub fn rotation_x<'b, T: Scalar>(out: &'b [T; 4]) -> (r: T)
    ensures
        rotation_x_parts_spec(out@).0.arc_tangent_is(rotation_x_parts_spec(out@).1, r),
{
    let (rise, run) = rotation_x_parts(out);
    rise.atan2(run)
}

/// The angle of the unit quaternion `out` about the y axis: the arc sine of
/// `rotation_y_sine`.
#[inline(always)]
pub fn rotation_y<'b, T: Scalar>(out: &'b [T; 4]) -> (r: T)
    ensures
        rotation_y_sine_spec(out@).arc_sine_is(r),
{
    rotation_y_sine(out).asin()
}

/// The angle of the unit quaternion `out` about the z axis: the arc tangent
/// of `rotation_z_parts`.
#[inline(always)]
pub fn rotation_z<'b, T: Scalar>(out: &'b [T; 4]) -> (r: T)
    ensures
        rotation_z_parts_spec(out@).0.arc_tangent_is(rotation_z_parts_spec(out@).1, r),
{
    let (rise, run) = rotation_z_parts(out);
    rise.atan2(run)
}

/// Writes into `out` the quaternion `a` turned about the x axis by the angle
/// whose half has sine `bx` and cosine `bw`.
pub fn rotate_x_by<'a, 'b, T: Scalar>(out: &'a mut [T; 4], a: &'b [T; 4], bx: T, bw: T) -> (r:
    &'a mut [T; 4])
    ensures
        r@ == rotate_x_by_spec(a@, bx, bw),
        *final(out) == *final(r),
{
    let ax = a[0];
    let ay = a[1];
    let az = a[2];
    let aw = a[3];

    out[0] = ax.mul(bw).add(aw.mul(bx));
    out[1] = ay.mul(bw).add(az.mul(bx));
    out[2] = az.mul(bw).sub(ay.mul(bx));
    out[3] = aw.mul(bw).sub(ax.mul(bx));
    assert(out@ =~= rotate_x_by_spec(a@, bx, bw));
    out
}

/// Writes into `out` the quaternion `a` turned about the y axis by the angle
/// whose half has sine `by` and cosine `bw`.
pub fn rotate_y_by<'a, 'b, T: Scalar>(out: &'a mut [T; 4], a: &'b [T; 4], by: T, bw: T) -> (r:
    &'a mut [T; 4])
    ensures
        r@ == rotate_y_by_spec(a@, by, bw),
        *final(out) == *final(r),
{
    let ax = a[0];
    let ay = a[1];
    let az = a[2];
    let aw = a[3];

    out[0] = ax.mul(bw).sub(az.mul(by));
    out[1] = ay.mul(bw).add(aw.mul(by));
    out[2] = az.mul(bw).add(ax.mul(by));
    out[3] = aw.mul(bw).sub(ay.mul(by));
    assert(out@ =~= rotate_y_by_spec(a@, by, bw));
    out
}

/// Writes into `out` the quaternion `a` turned about the z axis by the angle
/// whose half has sine `bz` and cosine `bw`.
pub fn rotate_z_by<'a, 'b, T: Scalar>(out: &'a mut [T; 4], a: &'b [T; 4], bz: T, bw: T) -> (r:
    &'a mut [T; 4])
    ensures
        r@ == rotate_z_by_spec(a@, bz, bw),
        *final(out) == *final(r),
{
    let ax = a[0];
    let ay = a[1];
    let az = a[2];
    let aw = a[3];

    out[0] = ax.mul(bw).add(ay.mul(bz));
    out[1] = ay.mul(bw).sub(ax.mul(bz));
    out[2] = az.mul(bw).add(aw.mul(bz));
    out[3] = aw.mul(bw).sub(az.mul(bz));
    assert(out@ =~= rotate_z_by_spec(a@, bz, bw));
    out
}

/// Writes into `out` the quaternion `a` turned about the x axis by `angle`.
/// `a` is taken to be of unit length and is not normalised.
#[inline(always)]
pub fn rotate_x<'a, 'b, T: Scalar>(out: &'a mut [T; 4], a: &'b [T; 4], angle: T) -> (r:
    &'a mut [T; 4])
    ensures
        is_rotate_x(a@, angle, r@),
        *final(out) == *final(r),
{
    let half = angle.div(T::from_isize(2));
    let bx = half.sin();
    let bw = half.cos();
    let r = rotate_x_by(out, a, bx, bw);
    assert(half_angle(angle).sine_is(bx) && half_angle(angle).cosine_is(bw));
    r
}

/// Writes into `out` the quaternion `a` turned about the y axis by `angle`.
/// `a` is taken to be of unit length and is not normalised.
#[inline(always)]
pub fn rotate_y<'a, 'b, T: Scalar>(out: &'a mut [T; 4], a: &'b [T; 4], angle: T) -> (r:
    &'a mut [T; 4])
    ensures
        is_rotate_y(a@, angle, r@),
        *final(out) == *final(r),
{
    let half = angle.div(T::from_isize(2));
    let by = half.sin();
    let bw = half.cos();
    let r = rotate_y_by(out, a, by, bw);
    assert(half_angle(angle).sine_is(by) && half_angle(angle).cosine_is(bw));
    r
}

/// Writes into `out` the quaternion `a` turned about the z axis by `angle`.
/// `a` is taken to be of unit length and is not normalised.
#[inline(always)]
pub fn rotate_z<'a, 'b, T: Scalar>(out: &'a mut [T; 4], a: &'b [T; 4], angle: T) -> (r:
    &'a mut [T; 4])
    ensures
        is_rotate_z(a@, angle, r@),
        *final(out) == *final(r),
{
    let half = angle.div(T::from_isize(2));
    let bz = half.sin();
    let bw = half.cos();
    let r = rotate_z_by(out, a, bz, bw);
    assert(half_angle(angle).sine_is(bz) && half_angle(angle).cosine_is(bw));
    r
}

/// Writes into `out` the quaternion `a` turned about z by `z`, then about x
/// by `x`, then about y by `y`, in that order. The two intermediate
/// quaternions are kept apart from `out`.
#[inline(always)]
pub fn rotate<'a, 'b, T: Scalar>(out: &'a mut [T; 4], a: &'b [T; 4], x: T, y: T, z: T) -> (r:
    &'a mut [T; 4])
    ensures
        is_rotate(a@, x, y, z, r@),
        *final(out) == *final(r),
{
    let mut tmp_a = *a;
    let mut tmp_b = [T::zero(), T::zero(), T::zero(), T::one()];
    rotate_z(&mut tmp_a, a, z);
    rotate_x(&mut tmp_b, &tmp_a, x);
    rotate_y(out, &tmp_b, y);
    out
}

/// Writes into `out` the quaternion that turns the default forward and up
/// axes onto `forward` and `up`, which are taken to be of unit length and at
/// right angles. With `d = 2 * (1 + up . forward)`, the result is the cross
/// product `up x forward` over `d * d`, and `d * d / 2` as `w`; a `d * d` that
/// compares equal to zero is not divided by, and the cross product is scaled
/// by zero.
#[inline(always)]
pub fn look_rotation<'a, T: Scalar>(out: &'a mut [T; 4], forward: [T; 3], up: [T; 3]) -> (r:
    &'a mut [T; 4])
    ensures
        r@ == look_rotation_spec(forward@, up@),
        *final(out) == *final(r),
{
    let fx = forward[0];
    let fy = forward[1];
    let fz = forward[2];
    let ux = up[0];
    let uy = up[1];
    let uz = up[2];

    let ax = uy.mul(fz).sub(uz.mul(fy));
    let ay = uz.mul(fx).sub(ux.mul(fz));
    let az = ux.mul(fy).sub(uy.mul(fx));

    let d = T::one().add(ux.mul(fx)).add(uy.mul(fy)).add(uz.mul(fz)).mul(T::from_isize(2));
    let dsq = d.mul(d);
    let s = reciprocal(dsq);

    out[0] = ax.mul(s);
    out[1] = ay.mul(s);
    out[2] = az.mul(s);
    out[3] = dsq.div(T::from_isize(2));
    assert(out@ =~= look_rotation_spec(forward@, up@));
    out
}

/// Writes into `out` the rotation about `axis` whose half angle has sine `s`
/// and cosine `c`. `axis` is taken to be of unit length and is not
/// normalised.
pub fn from_axis_sin_cos<'a, T: Scalar>(out: &'a mut [T; 4], axis: [T; 3], s: T, c: T) -> (r:
    &'a mut [T; 4])
    ensures
        r@ == from_axis_sin_cos_spec(axis@, s, c),
        *final(out) == *final(r),
{
    out[0] = axis[0].mul(s);
    out[1] = axis[1].mul(s);
    out[2] = axis[2].mul(s);
    out[3] = c;
    assert(out@ =~= from_axis_sin_cos_spec(axis@, s, c));
    out
}

/// Writes into `out` the rotation about `axis` by `angle`: the axis times the
/// sine of half the angle, and the cosine of half the angle as `w`. `axis` is
/// taken to be of unit length and is not normalised.
#[inline(always)]
pub fn from_axis_angle<'a, T: Scalar>(out: &'a mut [T; 4], axis: [T; 3], angle: T) -> (r:
    &'a mut [T; 4])
    ensures
        is_from_axis_angle(axis@, angle, r@),
        *final(out) == *final(r),
{
    let half = angle.div(T::from_isize(2));
    let s = half.sin();
    let c = half.cos();
    let r = from_axis_sin_cos(out, axis, s, c);
    assert(half_angle(angle).sine_is(s) && half_angle(angle).cosine_is(c));
    r
}

/// The term of the diagonal `m11`, `m22`, `m33` that `from_mat` pivots on.
pub fn pivot<T: Scalar>(m11: T, m22: T, m33: T) -> (r: Pivot)
    ensures
        r == pivot_spec(m11, m22, m33),
{
    let trace = m11.add(m22).add(m33);
    if T::zero().lt(trace) {
        Pivot::Trace
    } else if m22.lt(m11) && m33.lt(m11) {
        Pivot::M11
    } else if m33.lt(m22) {
        Pivot::M22
    } else {
        Pivot::M33
    }
}

/// Writes into `out` the quaternion of the rotation matrix with rows
/// `(m11, m12, m13)`, `(m21, m22, m23)`, `(m31, m32, m33)`.
///
/// The largest component is found first, from the trace and the diagonal, and
/// computed from a square root; the other three are divided by it. So the
/// root is never taken of a number near zero, whatever rotation the matrix
/// stands for:
///
/// - trace above zero: `s = 0.5 / sqrt(trace + 1)`, `w = 0.25 / s`, and
///   `x, y, z = (m32 - m23) * s, (m13 - m31) * s, (m21 - m12) * s`;
/// - else `m11` above `m22` and `m33`: `s = 2 * sqrt(1 + m11 - m22 - m33)`,
///   `x = s / 4`, and `w, y, z = (m32 - m23) / s, (m12 + m21) / s,
///   (m13 + m31) / s`;
/// - else `m22` above `m33`: `s = 2 * sqrt(1 + m22 - m11 - m33)`, `y = s / 4`,
///   and `w, x, z = (m13 - m31) / s, (m12 + m21) / s, (m23 + m32) / s`;
/// - else: `s = 2 * sqrt(1 + m33 - m11 - m22)`, `z = s / 4`, and
///   `w, x, y = (m21 - m12) / s, (m13 + m31) / s, (m23 + m32) / s`.
#[inline(always)]
pub fn from_mat<'a, T: Scalar>(
    out: &'a mut [T; 4],
    m11: T,
    m12: T,
    m13: T,
    m21: T,
    m22: T,
    m23: T,
    m31: T,
    m32: T,
    m33: T,
) -> (r: &'a mut [T; 4])
    ensures
        r@ == from_mat_spec(m11, m12, m13, m21, m22, m23, m31, m32, m33),
        *final(out) == *final(r),
{
    match pivot(m11, m22, m33) {
        Pivot::Trace => {
            let trace = m11.add(m22).add(m33);
            let s = T::half().div(trace.add(T::one()).sqrt());

            out[3] = T::quarter().div(s);
            out[0] = m32.sub(m23).mul(s);
            out[1] = m13.sub(m31).mul(s);
            out[2] = m21.sub(m12).mul(s);
        },
        Pivot::M11 => {
            let s = T::from_isize(2).mul(T::one().add(m11).sub(m22).sub(m33).sqrt());
            let inv_s = T::one().div(s);

            out[3] = m32.sub(m23).mul(inv_s);
            out[0] = s.div(T::from_isize(4));
            out[1] = m12.add(m21).mul(inv_s);
            out[2] = m13.add(m31).mul(inv_s);
        },
        Pivot::M22 => {
            let s = T::from_isize(2).mul(T::one().add(m22).sub(m11).sub(m33).sqrt());
            let inv_s = T::one().div(s);

            out[3] = m13.sub(m31).mul(inv_s);
            out[0] = m12.add(m21).mul(inv_s);
            out[1] = s.div(T::from_isize(4));
            out[2] = m23.add(m32).mul(inv_s);
        },
        Pivot::M33 => {
            let s = T::from_isize(2).mul(T::one().add(m33).sub(m11).sub(m22).sqrt());
            let inv_s = T::one().div(s);

            out[3] = m21.sub(m12).mul(inv_s);
            out[0] = m13.add(m31).mul(inv_s);
            out[1] = m23.add(m32).mul(inv_s);
            out[2] = s.div(T::from_isize(4));
        },
    }
    assert(out@ =~= from_mat_spec(m11, m12, m13, m21, m22, m23, m31, m32, m33));
    out
}

/// The rotation of a 2x2 matrix `m`, stored column by column: `m[0]`, `m[1]`
/// are the first column. It is completed to three dimensions by a third row
/// and column of `0, 0, 1`.
pub open spec fn from_mat2_spec<T: Scalar>(m: Seq<T>) -> Seq<T>
    recommends
        m.len() >= 4,
{
    from_mat_spec(
        m[0],
        m[2],
        T::zero_spec(),
        m[1],
        m[3],
        T::zero_spec(),
        T::zero_spec(),
        T::zero_spec(),
        T::one_spec(),
    )
}

/// The rotation of a 3x3 matrix `m`, stored column by column: `m[0]`, `m[1]`,
/// `m[2]` are the first column.
pub open spec fn from_mat3_spec<T: Scalar>(m: Seq<T>) -> Seq<T>
    recommends
        m.len() == 9,
{
    from_mat_spec(m[0], m[3], m[6], m[1], m[4], m[7], m[2], m[5], m[8])
}

/// The rotation of a 4x4 matrix `m`, stored column by column: `m[0]` to
/// `m[3]` are the first column. Its fourth row and column are left aside.
pub open spec fn from_mat4_spec<T: Scalar>(m: Seq<T>) -> Seq<T>
    recommends
        m.len() == 16,
{
    from_mat_spec(m[0], m[4], m[8], m[1], m[5], m[9], m[2], m[6], m[10])
}

/// Writes into `out` the rotation of the 2x2 matrix `m`, which is stored
/// column by column: row `i`, column `j` is `m[i + 2 * j]`.
#[inline(always)]
pub fn from_mat2<'a, 'b, T: Scalar>(out: &'a mut [T; 4], m: &'b [T; 4]) -> (r: &'a mut [T; 4])
    ensures
        r@ == from_mat2_spec(m@),
        *final(out) == *final(r),
{
    from_mat(
        out,
        m[0],
        m[2],
        T::zero(),
        m[1],
        m[3],
        T::zero(),
        T::zero(),
        T::zero(),
        T::one(),
    )
}

/// Writes into `out` the rotation of the 3x2 matrix `m` of a plane
/// transformation, which is stored column by column: the first two columns
/// are the 2x2 rotation, row `i`, column `j` at `m[i + 2 * j]`, and the third,
/// the translation, is left aside.
#[inline(always)]
pub fn from_mat32<'a, T: Scalar>(out: &'a mut [T; 4], m: [T; 6]) -> (r: &'a mut [T; 4])
    ensures
        r@ == from_mat2_spec(m@),
        *final(out) == *final(r),
{
    from_mat(
        out,
        m[0],
        m[2],
        T::zero(),
        m[1],
        m[3],
        T::zero(),
        T::zero(),
        T::zero(),
        T::one(),
    )
}

/// Writes into `out` the rotation of the 3x3 matrix `m`, which is stored
/// column by column: row `i`, column `j` is `m[i + 3 * j]`.
#[inline(always)]
pub fn from_mat3<'a, T: Scalar>(out: &'a mut [T; 4], m: [T; 9]) -> (r: &'a mut [T; 4])
    ensures
        r@ == from_mat3_spec(m@),
        *final(out) == *final(r),
{
    from_mat(out, m[0], m[3], m[6], m[1], m[4], m[7], m[2], m[5], m[8])
}

/// Writes into `out` the rotation of the 4x4 matrix `m`, which is stored
/// column by column: row `i`, column `j` is `m[i + 4 * j]`. Only its upper
/// left 3x3 block is read.
#[inline(always)]
pub fn from_mat4<'a, T: Scalar>(out: &'a mut [T; 4], m: [T; 16]) -> (r: &'a mut [T; 4])
    ensures
        r@ == from_mat4_spec(m@),
        *final(out) == *final(r),
{
    from_mat(out, m[0], m[4], m[8], m[1], m[5], m[9], m[2], m[6], m[10])
}

/// The arc sine of the rotation about y is taken of a number that is neither
/// below minus one nor above one, whatever the quaternion: the clamp sees to
/// it.
pub proof fn rotation_y_sine_in_domain<T: Scalar>(q: Seq<T>)
    requires
        q.len() == 4,
    ensures
        !rotation_y_sine_spec(q).lt_spec(T::one_spec().neg_spec()),
        !T::one_spec().lt_spec(rotation_y_sine_spec(q)),
{
    let one = T::one_spec();
    T::law_units_ordered();
    T::law_lt_asymmetric(one.neg_spec(), one);
    T::law_lt_asymmetric(one.neg_spec(), one.neg_spec());
    T::law_lt_asymmetric(one, one);
}

/// Where zero is exact, turning `a` about x is multiplying it by the
/// elementary quaternion `(bx, 0, 0, bw)`.
pub proof fn rotate_x_is_product<T: Scalar>(a: Seq<T>, bx: T, bw: T)
    requires
        a.len() == 4,
        zero_is_exact::<T>(),
    ensures
        rotate_x_by_spec(a, bx, bw) == hamilton(
            a,
            create_spec(bx, T::zero_spec(), T::zero_spec(), bw),
        ),
{
    let b = create_spec(bx, T::zero_spec(), T::zero_spec(), bw);
    assert(b[1] == T::zero_spec() && b[2] == T::zero_spec());
    assert(rotate_x_by_spec(a, bx, bw) =~= hamilton(a, b));
}

/// Where zero is exact, turning `a` about y is multiplying it by the
/// elementary quaternion `(0, by, 0, bw)`.
pub proof fn rotate_y_is_product<T: Scalar>(a: Seq<T>, by: T, bw: T)
    requires
        a.len() == 4,
        zero_is_exact::<T>(),
    ensures
        rotate_y_by_spec(a, by, bw) == hamilton(
            a,
            create_spec(T::zero_spec(), by, T::zero_spec(), bw),
        ),
{
    let b = create_spec(T::zero_spec(), by, T::zero_spec(), bw);
    assert(b[0] == T::zero_spec() && b[2] == T::zero_spec());
    assert(rotate_y_by_spec(a, by, bw) =~= hamilton(a, b));
}

/// Where zero is exact, turning `a` about z is multiplying it by the
/// elementary quaternion `(0, 0, bz, bw)`.
pub proof fn rotate_z_is_product<T: Scalar>(a: Seq<T>, bz: T, bw: T)
    requires
        a.len() == 4,
        zero_is_exact::<T>(),
    ensures
        rotate_z_by_spec(a, bz, bw) == hamilton(
            a,
            create_spec(T::zero_spec(), T::zero_spec(), bz, bw),
        ),
{
    let b = create_spec(T::zero_spec(), T::zero_spec(), bz, bw);
    assert(b[0] == T::zero_spec() && b[1] == T::zero_spec());
    assert(rotate_z_by_spec(a, bz, bw) =~= hamilton(a, b));
}

} // verus!
