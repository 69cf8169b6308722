//! Conjugate, inverse, component-wise bounds and the three interpolations.
use vstd::prelude::*;
use crate::create::zero_spec;
use crate::length::{dot, dot_spec, normalize, normalize_spec, normalize_zero};
use crate::scalar::{reciprocal, reciprocal_spec, Cast, Scalar};

verus! {

/// `(-x, -y, -z, w)`.
pub open spec fn conjugate_spec<T: Scalar>(a: Seq<T>) -> Seq<T>
    recommends
        a.len() == 4,
{
    seq![a[0].neg_spec(), a[1].neg_spec(), a[2].neg_spec(), a[3]]
}

/// Whether `a` and `b` compare equal in every component.
pub open spec fn eq_spec<T: Scalar>(a: Seq<T>, b: Seq<T>) -> bool
    recommends
        a.len() == 4,
        b.len() == 4,
{
    &&& a[0].eq_spec(b[0])
    &&& a[1].eq_spec(b[1])
    &&& a[2].eq_spec(b[2])
    &&& a[3].eq_spec(b[3])
}

/// Each component of `a` times `s`.
pub open spec fn scaled<T: Scalar>(a: Seq<T>, s: T) -> Seq<T>
    recommends
        a.len() == 4,
{
    seq![a[0].mul_spec(s), a[1].mul_spec(s), a[2].mul_spec(s), a[3].mul_spec(s)]
}

/// The conjugate of `a` times the reciprocal of `a`'s squared length, or
/// times zero where that compares equal to zero.
pub open spec fn inverse_spec<T: Scalar>(a: Seq<T>) -> Seq<T>
    recommends
        a.len() == 4,
{
    scaled(conjugate_spec(a), reciprocal_spec(dot_spec(a, a)))
}

/// The `w` of a unit quaternion with the given `x`, `y`, `z`:
/// `sqrt(|1 - x*x - y*y - z*z|)`, subtracted from the left.
pub open spec fn unit_w<T: Scalar>(x: T, y: T, z: T) -> T {
    T::one_spec().sub_spec(x.mul_spec(x)).sub_spec(y.mul_spec(y)).sub_spec(
        z.mul_spec(z),
    ).abs_spec().sqrt_spec()
}

/// `a` with its `w` replaced by `unit_w`.
pub open spec fn calculate_w_spec<T: Scalar>(a: Seq<T>) -> Seq<T>
    recommends
        a.len() == 4,
{
    seq![a[0], a[1], a[2], unit_w(a[0], a[1], a[2])]
}

/// The smaller of `a` and `b`; `a` where neither is smaller.
pub open spec fn lesser<T: Scalar>(a: T, b: T) -> T {
    if b.lt_spec(a) {
        b
    } else {
        a
    }
}

/// The larger of `a` and `b`; `a` where neither is larger.
pub open spec fn greater<T: Scalar>(a: T, b: T) -> T {
    if a.lt_spec(b) {
        b
    } else {
        a
    }
}

/// `a` held between `lo` and `hi`: `lo` where `a` is below it, else `hi`
/// where `a` is above it, else `a`.
pub open spec fn bounded<T: Scalar>(a: T, lo: T, hi: T) -> T {
    if a.lt_spec(lo) {
        lo
    } else if hi.lt_spec(a) {
        hi
    } else {
        a
    }
}

/// The lesser of `a` and `b`, component by component.
pub open spec fn min_spec<T: Scalar>(a: Seq<T>, b: Seq<T>) -> Seq<T>
    recommends
        a.len() == 4,
        b.len() == 4,
{
    seq![lesser(a[0], b[0]), lesser(a[1], b[1]), lesser(a[2], b[2]), lesser(a[3], b[3])]
}

/// The greater of `a` and `b`, component by component.
pub open spec fn max_spec<T: Scalar>(a: Seq<T>, b: Seq<T>) -> Seq<T>
    recommends
        a.len() == 4,
        b.len() == 4,
{
    seq![greater(a[0], b[0]), greater(a[1], b[1]), greater(a[2], b[2]), greater(a[3], b[3])]
}

/// `a` with each component held between those of `lo` and `hi`.
pub open spec fn clamp_spec<T: Scalar>(a: Seq<T>, lo: Seq<T>, hi: Seq<T>) -> Seq<T>
    recommends
        a.len() == 4,
        lo.len() == 4,
        hi.len() == 4,
{
    seq![
        bounded(a[0], lo[0], hi[0]),
        bounded(a[1], lo[1], hi[1]),
        bounded(a[2], lo[2], hi[2]),
        bounded(a[3], lo[3], hi[3]),
    ]
}

/// One component of a linear blend, computed in the type `F` of the
/// parameter: `a + (b - a) * t`, with `a` and `b` cast to `F` and the result
/// cast back.
pub open spec fn blend<T: Cast<F>, F: Scalar + Cast<T>>(a: T, b: T, t: F) -> T {
    let start: F = a.cast_spec();
    let end: F = b.cast_spec();
    start.add_spec(end.sub_spec(start).mul_spec(t)).cast_spec()
}

/// The linear blend of `a` and `b` at `t`, component by component.
pub open spec fn lerp_spec<T: Cast<F>, F: Scalar + Cast<T>>(a: Seq<T>, b: Seq<T>, t: F) -> Seq<T>
    recommends
        a.len() == 4,
        b.len() == 4,
{
    seq![blend(a[0], b[0], t), blend(a[1], b[1], t), blend(a[2], b[2], t), blend(a[3], b[3], t)]
}

/// The linear blend of `a` and `b` at `t`, normalised.
pub open spec fn nlerp_spec<T: Scalar + Cast<N>, N: Scalar + Cast<T>>(
    a: Seq<T>,
    b: Seq<T>,
    t: N,
) -> Seq<T>
    recommends
        a.len() == 4,
        b.len() == 4,
{
    normalize_spec(lerp_spec(a, b, t))
}

/// The four components of `a` in the type `R`.
pub open spec fn widened<T: Cast<R>, R>(a: Seq<T>) -> Seq<R>
    recommends
        a.len() == 4,
{
    seq![a[0].cast_spec(), a[1].cast_spec(), a[2].cast_spec(), a[3].cast_spec()]
}

/// Whether `slerp` turns `b` round before it interpolates: the dot product of
/// `a` and `b`, taken in `R`, is below zero, so `-b` is the nearer of the two
/// quaternions that stand for `b`'s rotation.
pub open spec fn slerp_flips<T: Cast<R>, R: Scalar>(a: Seq<T>, b: Seq<T>) -> bool
    recommends
        a.len() == 4,
        b.len() == 4,
{
    dot_spec(widened::<T, R>(a), widened::<T, R>(b)).lt_spec(R::zero_spec())
}

/// The cosine of the arc that `slerp` follows: the dot product of `a` and `b`,
/// taken in `R`, negated where `slerp_flips`.
pub open spec fn slerp_cosine<T: Cast<R>, R: Scalar>(a: Seq<T>, b: Seq<T>) -> R
    recommends
        a.len() == 4,
        b.len() == 4,
{
    let raw = dot_spec(widened::<T, R>(a), widened::<T, R>(b));
    if slerp_flips::<T, R>(a, b) {
        raw.neg_spec()
    } else {
        raw
    }
}

/// Whether an arc with this cosine is long enough to interpolate along:
/// `1 - cosom > 0`. Otherwise `slerp` blends linearly.
pub open spec fn slerp_is_spherical<R: Scalar>(cosom: R) -> bool {
    R::zero_spec().lt_spec(R::one_spec().sub_spec(cosom))
}

/// The weights of `a` and of the far end in the result. On a spherical arc
/// they are `sin_from` and `sin_to`, the sines of the two parts that `t` cuts
/// the arc into, each times the reciprocal of the sine of the whole arc, or
/// times zero where that sine compares equal to zero; else `1 - t` and `t`.
pub open spec fn slerp_weights<R: Scalar>(
    cosom: R,
    t: R,
    sin_omega: R,
    sin_from: R,
    sin_to: R,
) -> (R, R) {
    if slerp_is_spherical(cosom) {
        (
            sin_from.mul_spec(reciprocal_spec(sin_omega)),
            sin_to.mul_spec(reciprocal_spec(sin_omega)),
        )
    } else {
        (R::one_spec().sub_spec(t), t)
    }
}

/// One component of the result: `scale0 * a + scale1 * b` in `R`, with `b`
/// negated where `flip`, cast to `T`.
pub open spec fn slerp_component<T, R: Scalar + Cast<T>>(
    a: R,
    b: R,
    flip: bool,
    scale0: R,
    scale1: R,
) -> T {
    let end = if flip {
        b.neg_spec()
    } else {
        b
    };
    scale0.mul_spec(a).add_spec(scale1.mul_spec(end)).cast_spec()
}

/// The weighted sum of the two ends, component by component.
pub open spec fn slerp_sum<T, R: Scalar + Cast<T>>(
    wa: Seq<R>,
    wb: Seq<R>,
    flip: bool,
    scale0: R,
    scale1: R,
) -> Seq<T>
    recommends
        wa.len() == 4,
        wb.len() == 4,
{
    seq![
        slerp_component(wa[0], wb[0], flip, scale0, scale1),
        slerp_component(wa[1], wb[1], flip, scale0, scale1),
        slerp_component(wa[2], wb[2], flip, scale0, scale1),
        slerp_component(wa[3], wb[3], flip, scale0, scale1),
    ]
}

/// What `slerp` writes, given the three sines it took on the way: that of the
/// whole arc, and those of the part before and of the part after `t`. They
/// count only on a spherical arc.
pub open spec fn slerp_by_spec<T: Cast<R>, N: Cast<R>, R: Scalar + Cast<T>>(
    a: Seq<T>,
    b: Seq<T>,
    t: N,
    sin_omega: R,
    sin_from: R,
    sin_to: R,
) -> Seq<T>
    recommends
        a.len() == 4,
        b.len() == 4,
{
    let (scale0, scale1) = slerp_weights(
        slerp_cosine::<T, R>(a, b),
        t.cast_spec(),
        sin_omega,
        sin_from,
        sin_to,
    );
    slerp_sum(widened::<T, R>(a), widened::<T, R>(b), slerp_flips::<T, R>(a, b), scale0, scale1)
}

/// Whether `out` is a spherical interpolation from `a` to `b` at `t`. On a
/// spherical arc the angle `omega` is an arc cosine of `slerp_cosine`, and the
/// three sines are taken of `omega`, of `(1 - t) * omega` and of `t * omega`;
/// else no trigonometric function is called.
pub open spec fn is_slerp<T: Cast<R>, N: Cast<R>, R: Scalar + Cast<T>>(
    a: Seq<T>,
    b: Seq<T>,
    t: N,
    out: Seq<T>,
) -> bool
    recommends
        a.len() == 4,
        b.len() == 4,
{
    let cosom = slerp_cosine::<T, R>(a, b);
    let tw: R = t.cast_spec();
    if slerp_is_spherical(cosom) {
        exists|omega: R, sin_omega: R, sin_from: R, sin_to: R|
            {
                &&& #[trigger] cosom.arc_cosine_is(omega)
                &&& omega.sine_is(sin_omega)
                &&& R::one_spec().sub_spec(tw).mul_spec(omega).sine_is(sin_from)
                &&& tw.mul_spec(omega).sine_is(sin_to)
                &&& out == #[trigger] slerp_by_spec::<T, N, R>(a, b, t, sin_omega, sin_from, sin_to)
            }
    } else {
        out == slerp_by_spec::<T, N, R>(a, b, t, R::zero_spec(), R::zero_spec(), R::zero_spec())
    }
}

/// Writes the conjugate of `a` into `out`.
#[inline]
pub fn conjugate<'a, 'b, T: Scalar>(out: &'a mut [T; 4], a: &'b [T; 4]) -> (r: &'a mut [T; 4])
    ensures
        r@ == conjugate_spec(a@),
        *final(out) == *final(r),
{
    out[0] = a[0].neg();
    out[1] = a[1].neg();
    out[2] = a[2].neg();
    out[3] = a[3];
    assert(out@ =~= conjugate_spec(a@));
    out
}

/// Writes the inverse of `a` into `out`: its conjugate over its squared
/// length. Where the squared length compares equal to zero nothing is divided
/// by it: the conjugate is scaled by zero instead.
#[inline]
pub fn inverse<'a, 'b, T: Scalar>(out: &'a mut [T; 4], a: &'b [T; 4]) -> (r: &'a mut [T; 4])
    ensures
        r@ == inverse_spec(a@),
        *final(out) == *final(r),
{
    let s = reciprocal(dot(*a, *a));
    out[0] = a[0].neg().mul(s);
    out[1] = a[1].neg().mul(s);
    out[2] = a[2].neg().mul(s);
    out[3] = a[3].mul(s);
    assert(out@ =~= inverse_spec(a@));
    out
}

/// Whether `a` and `b` compare equal in every component, as the scalar
/// compares.
#[inline]
pub fn eq<T: Scalar>(a: &[T; 4], b: &[T; 4]) -> (r: bool)
    ensures
        r == eq_spec(a@, b@),
{
    !ne(a, b)
}

/// Whether `a` and `b` differ in some component, as the scalar compares.
#[inline]
pub fn ne<T: Scalar>(a: &[T; 4], b: &[T; 4]) -> (r: bool)
    ensures
        r == !eq_spec(a@, b@),
{
    !a[0].eq(b[0]) || !a[1].eq(b[1]) || !a[2].eq(b[2]) || !a[3].eq(b[3])
}

/// Copies `x`, `y` and `z` from `a` and writes the `w` that a unit quaternion
/// would have with them. The absolute value under the root absorbs a small
/// negative remainder; it also hides an `a` that is far from unit length.
#[inline]
pub fn calculate_w<'a, 'b, T: Scalar>(out: &'a mut [T; 4], a: &'b [T; 4]) -> (r: &'a mut [T; 4])
    ensures
        r@ == calculate_w_spec(a@),
        *final(out) == *final(r),
{
    out[0] = a[0];
    out[1] = a[1];
    out[2] = a[2];
    out[3] = T::one().sub(a[0].mul(a[0])).sub(a[1].mul(a[1])).sub(a[2].mul(a[2])).abs().sqrt();
    assert(out@ =~= calculate_w_spec(a@));
    out
}

/// Writes the component-wise minimum of `a` and `b` into `out`.
#[inline]
pub fn min<'a, 'b, T: Scalar>(out: &'a mut [T; 4], a: &'b [T; 4], b: &'b [T; 4]) -> (r:
    &'a mut [T; 4])
    ensures
        r@ == min_spec(a@, b@),
        *final(out) == *final(r),
{
    out[0] = if b[0].lt(a[0]) { b[0] } else { a[0] };
    out[1] = if b[1].lt(a[1]) { b[1] } else { a[1] };
    out[2] = if b[2].lt(a[2]) { b[2] } else { a[2] };
    out[3] = if b[3].lt(a[3]) { b[3] } else { a[3] };
    assert(out@ =~= min_spec(a@, b@));
    out
}

/// Writes the component-wise maximum of `a` and `b` into `out`.
#[inline]
pub fn max<'a, 'b, T: Scalar>(out: &'a mut [T; 4], a: &'b [T; 4], b: &'b [T; 4]) -> (r:
    &'a mut [T; 4])
    ensures
        r@ == max_spec(a@, b@),
        *final(out) == *final(r),
{
    out[0] = if a[0].lt(b[0]) { b[0] } else { a[0] };
    out[1] = if a[1].lt(b[1]) { b[1] } else { a[1] };
    out[2] = if a[2].lt(b[2]) { b[2] } else { a[2] };
    out[3] = if a[3].lt(b[3]) { b[3] } else { a[3] };
    assert(out@ =~= max_spec(a@, b@));
    out
}

/// One component of `clamp`.
fn bound<T: Scalar>(a: T, lo: T, hi: T) -> (r: T)
    ensures
        r == bounded(a, lo, hi),
{
    if a.lt(lo) {
        lo
    } else if hi.lt(a) {
        hi
    } else {
        a
    }
}

/// Writes `a` into `out`, each component held between those of `min` and
/// `max`.
#[inline]
pub fn clamp<'a, 'b, T: Scalar>(
    out: &'a mut [T; 4],
    a: &'b [T; 4],
    min: &'b [T; 4],
    max: &'b [T; 4],
) -> (r: &'a mut [T; 4])
    ensures
        r@ == clamp_spec(a@, min@, max@),
        *final(out) == *final(r),
{
    out[0] = bound(a[0], min[0], max[0]);
    out[1] = bound(a[1], min[1], max[1]);
    out[2] = bound(a[2], min[2], max[2]);
    out[3] = bound(a[3], min[3], max[3]);
    assert(out@ =~= clamp_spec(a@, min@, max@));
    out
}

/// One component of `lerp`.
fn blend_one<T: Scalar + Cast<F>, F: Scalar + Cast<T>>(a: T, b: T, t: F) -> (r: T)
    ensures
        r == blend(a, b, t),
{
    let start: F = a.cast();
    let end: F = b.cast();
    start.add(end.sub(start).mul(t)).cast()
}

/// Writes the linear blend `a + (b - a) * t` into `out`, component by
/// component. `t` is not clamped: outside `[0, 1]` the blend extrapolates.
/// The arithmetic is done in the type of `t`.
#[inline]
pub fn lerp<'a, 'b, T: Scalar + Cast<F>, F: Scalar + Cast<T>>(
    out: &'a mut [T; 4],
    a: &'b [T; 4],
    b: &'b [T; 4],
    t: F,
) -> (r: &'a mut [T; 4])
    ensures
        r@ == lerp_spec(a@, b@, t),
        *final(out) == *final(r),
{
    out[0] = blend_one(a[0], b[0], t);
    out[1] = blend_one(a[1], b[1], t);
    out[2] = blend_one(a[2], b[2], t);
    out[3] = blend_one(a[3], b[3], t);
    assert(out@ =~= lerp_spec(a@, b@, t));
    out
}

/// Writes the normalised linear blend of `a` and `b` into `out`. A blend
/// whose length compares equal to zero comes out as the zero vector.
#[inline]
pub fn nlerp<'a, 'b, T: Scalar + Cast<N>, N: Scalar + Cast<T>>(
    out: &'a mut [T; 4],
    a: &'b [T; 4],
    b: &'b [T; 4],
    t: N,
) -> (r: &'a mut [T; 4])
    ensures
        r@ == nlerp_spec(a@, b@, t),
        *final(out) == *final(r),
{
    let tmp = *lerp(out, a, b, t);
    normalize(out, tmp)
}

/// The four components of `a` in the type `R`.
fn widen<T: Scalar + Cast<R>, R: Scalar>(a: &[T; 4]) -> (r: [R; 4])
    ensures
        r@ == widened::<T, R>(a@),
{
    let r = [a[0].cast(), a[1].cast(), a[2].cast(), a[3].cast()];
    assert(r@ =~= widened::<T, R>(a@));
    r
}

/// The cosine of the arc between `wa` and `wb`, made non-negative, and
/// whether it had to be negated for that.
fn arc_cosine<R: Scalar>(wa: [R; 4], wb: [R; 4]) -> (r: (R, bool))
    ensures
        r.1 == dot_spec(wa@, wb@).lt_spec(R::zero_spec()),
        r.1 ==> r.0 == dot_spec(wa@, wb@).neg_spec(),
        !r.1 ==> r.0 == dot_spec(wa@, wb@),
{
    let raw = dot(wa, wb);
    if raw.lt(R::zero()) {
        (raw.neg(), true)
    } else {
        (raw, false)
    }
}

/// The weights of the two ends, from the sines of the arc and of its parts.
fn weigh<R: Scalar>(cosom: R, t: R, sin_omega: R, sin_from: R, sin_to: R) -> (r: (R, R))
    ensures
        r == slerp_weights(cosom, t, sin_omega, sin_from, sin_to),
{
    if R::zero().lt(R::one().sub(cosom)) {
        let sinom = reciprocal(sin_omega);
        (sin_from.mul(sinom), sin_to.mul(sinom))
    } else {
        (R::one().sub(t), t)
    }
}

/// One component of the weighted sum, cast to `T`.
fn weighted<T, R: Scalar + Cast<T>>(a: R, b: R, flip: bool, scale0: R, scale1: R) -> (r: T)
    ensures
        r == slerp_component::<T, R>(a, b, flip, scale0, scale1),
{
    let end = if flip {
        b.neg()
    } else {
        b
    };
    scale0.mul(a).add(scale1.mul(end)).cast()
}

/// Writes the weighted sum of the two ends into `out`, component by
/// component.
fn weigh_into<T: Scalar, R: Scalar + Cast<T>>(
    out: &mut [T; 4],
    wa: [R; 4],
    wb: [R; 4],
    flip: bool,
    scale0: R,
    scale1: R,
)
    ensures
        final(out)@ == slerp_sum::<T, R>(wa@, wb@, flip, scale0, scale1),
{
    out[0] = weighted(wa[0], wb[0], flip, scale0, scale1);
    out[1] = weighted(wa[1], wb[1], flip, scale0, scale1);
    out[2] = weighted(wa[2], wb[2], flip, scale0, scale1);
    out[3] = weighted(wa[3], wb[3], flip, scale0, scale1);
    assert(out@ =~= slerp_sum::<T, R>(wa@, wb@, flip, scale0, scale1));
}

/// Writes into `out` the spherical interpolation from `a` to `b` at `t` that
/// goes with the given sines. With `omega` the angle between `a` and the
/// nearer of `b` and `-b`, they are `sin_omega`, the sine of `omega`;
/// `sin_from`, that of `(1 - t) * omega`, which weighs `a`; and `sin_to`, that
/// of `t * omega`, which weighs the far end. Each weight is its sine over
/// `sin_omega`; a `sin_omega` that compares equal to zero is not divided by,
/// and both weights are then zero. Where the arc is too short to interpolate
/// along (`1 - cosine > 0` fails) the sines are left aside and the result is
/// the linear blend `(1 - t) * a + t * b`.
///
/// This is everything that `slerp` does with what the trigonometric
/// functions hand it.
pub fn slerp_by<'a, 'b, T, N, R>(
    out: &'a mut [T; 4],
    a: &'b [T; 4],
    b: &'b [T; 4],
    t: N,
    sin_omega: R,
    sin_from: R,
    sin_to: R,
) -> (r: &'a mut [T; 4]) where T: Scalar + Cast<R>, N: Scalar + Cast<R>, R: Scalar + Cast<T>
    ensures
        r@ == slerp_by_spec::<T, N, R>(a@, b@, t, sin_omega, sin_from, sin_to),
        *final(out) == *final(r),
{
    let wa: [R; 4] = widen(a);
    let wb: [R; 4] = widen(b);
    let (cosom, flip) = arc_cosine(wa, wb);
    let (scale0, scale1) = weigh(cosom, t.cast(), sin_omega, sin_from, sin_to);
    weigh_into(out, wa, wb, flip, scale0, scale1);
    out
}

/// Writes into `out` the spherical interpolation from `a` to `b` at `t`,
/// along the shorter of the two arcs. The arithmetic is done in `R`, whatever
/// the types of the quaternions and of `t`.
///
/// With `cosom` the dot product of `a` and `b`: where `cosom < 0`, `b` and
/// `cosom` are negated. Where then `1 - cosom > 0`, the ends are weighted by
/// `sin((1 - t) * omega) / sin(omega)` and `sin(t * omega) / sin(omega)`, with
/// `omega = acos(cosom)`; a `sin(omega)` that compares equal to zero is not
/// divided by, and both weights are then zero. Else the ends are weighted by
/// `1 - t` and `t`.
pub fn slerp<'a, 'b, T, N, R>(out: &'a mut [T; 4], a: &'b [T; 4], b: &'b [T; 4], t: N) -> (r:
    &'a mut [T; 4]) where T: Scalar + Cast<R>, N: Scalar + Cast<R>, R: Scalar + Cast<T>
    ensures
        is_slerp::<T, N, R>(a@, b@, t, r@),
        *final(out) == *final(r),
{
    let wa: [R; 4] = widen(a);
    let wb: [R; 4] = widen(b);
    let tw: R = t.cast();
    let (cosom, flip) = arc_cosine(wa, wb);
    let mut sin_omega = R::zero();
    let mut sin_from = R::zero();
    let mut sin_to = R::zero();
    if R::zero().lt(R::one().sub(cosom)) {
        let omega = cosom.acos();
        sin_omega = omega.sin();
        sin_from = R::one().sub(tw).mul(omega).sin();
        sin_to = tw.mul(omega).sin();
    }
    let (scale0, scale1) = weigh(cosom, tw, sin_omega, sin_from, sin_to);
    weigh_into(out, wa, wb, flip, scale0, scale1);
    assert(out@ == slerp_by_spec::<T, N, R>(a@, b@, t, sin_omega, sin_from, sin_to));
    out
}

/// The conjugate of the conjugate of a quaternion is the quaternion itself.
pub proof fn conjugate_involution<T: Scalar>(q: Seq<T>)
    requires
        q.len() == 4,
    ensures
        conjugate_spec(conjugate_spec(q)) == q,
{
    T::law_neg_involutive(q[0]);
    T::law_neg_involutive(q[1]);
    T::law_neg_involutive(q[2]);
    assert(conjugate_spec(conjugate_spec(q)) =~= q);
}

/// On an arc too short to interpolate along, the result of `slerp` does not
/// depend on any sine.
pub proof fn slerp_short_arc_ignores_sines<T: Cast<R>, N: Cast<R>, R: Scalar + Cast<T>>(
    a: Seq<T>,
    b: Seq<T>,
    t: N,
    sin_omega: R,
    sin_from: R,
    sin_to: R,
)
    requires
        !slerp_is_spherical(slerp_cosine::<T, R>(a, b)),
    ensures
        slerp_by_spec::<T, N, R>(a, b, t, sin_omega, sin_from, sin_to) == slerp_by_spec::<T, N, R>(
            a,
            b,
            t,
            R::zero_spec(),
            R::zero_spec(),
            R::zero_spec(),
        ),
{
}

/// Where the linear blend of `a` and `b` at `t` is the zero vector, so is
/// their normalised blend: normalising divides nothing by a zero length.
pub proof fn nlerp_of_zero_blend<T: Scalar + Cast<N>, N: Scalar + Cast<T>>(
    a: Seq<T>,
    b: Seq<T>,
    t: N,
)
    requires
        lerp_spec(a, b, t) == zero_spec::<T>(),
    ensures
        nlerp_spec(a, b, t) == zero_spec::<T>(),
{
    normalize_zero(lerp_spec(a, b, t));
}

} // verus!
