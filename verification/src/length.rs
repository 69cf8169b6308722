//! Dot product, length and normalisation.
use vstd::prelude::*;
use crate::create::zero_spec;
use crate::scalar::Scalar;

verus! {

/// `x*x + y*y + z*z + w*w`, summed from the left.
pub open spec fn length_values_sq_spec<T: Scalar>(x: T, y: T, z: T, w: T) -> T {
    x.mul_spec(x).add_spec(y.mul_spec(y)).add_spec(z.mul_spec(z)).add_spec(w.mul_spec(w))
}

/// The square root of the squared length, or the squared length itself where
/// that compares equal to zero.
pub open spec fn length_values_spec<T: Scalar>(x: T, y: T, z: T, w: T) -> T {
    let lsq = length_values_sq_spec(x, y, z, w);
    if lsq.eq_spec(T::zero_spec()) {
        lsq
    } else {
        lsq.sqrt_spec()
    }
}

/// One over the length, or the squared length itself where that compares
/// equal to zero.
pub open spec fn inv_length_values_spec<T: Scalar>(x: T, y: T, z: T, w: T) -> T {
    let lsq = length_values_sq_spec(x, y, z, w);
    if lsq.eq_spec(T::zero_spec()) {
        lsq
    } else {
        T::one_spec().div_spec(lsq.sqrt_spec())
    }
}

/// `a.x*b.x + a.y*b.y + a.z*b.z + a.w*b.w`, summed from the left.
pub open spec fn dot_spec<T: Scalar>(a: Seq<T>, b: Seq<T>) -> T
    recommends
        a.len() == 4,
        b.len() == 4,
{
    a[0].mul_spec(b[0]).add_spec(a[1].mul_spec(b[1])).add_spec(a[2].mul_spec(b[2])).add_spec(
        a[3].mul_spec(b[3]),
    )
}

/// The length of the four-vector `a`.
pub open spec fn length_spec<T: Scalar>(a: Seq<T>) -> T
    recommends
        a.len() == 4,
{
    length_values_spec(a[0], a[1], a[2], a[3])
}

/// Each component of `a` over `s`, or the zero vector where `s` compares
/// equal to zero.
pub open spec fn scaled_down<T: Scalar>(a: Seq<T>, s: T) -> Seq<T>
    recommends
        a.len() == 4,
{
    if s.eq_spec(T::zero_spec()) {
        zero_spec()
    } else {
        seq![a[0].div_spec(s), a[1].div_spec(s), a[2].div_spec(s), a[3].div_spec(s)]
    }
}

/// `a` over its own length, or the zero vector where that length compares
/// equal to zero.
pub open spec fn normalize_spec<T: Scalar>(a: Seq<T>) -> Seq<T>
    recommends
        a.len() == 4,
{
    scaled_down(a, length_spec(a))
}

/// The squared length of the vector `(x, y, z, w)`.
#[inline(always)]
pub fn length_values_sq<T: Scalar>(x: T, y: T, z: T, w: T) -> (r: T)
    ensures
        r == length_values_sq_spec(x, y, z, w),
{
    x.mul(x).add(y.mul(y)).add(z.mul(z)).add(w.mul(w))
}

/// The length of the vector `(x, y, z, w)`. A squared length that compares
/// equal to zero is returned as it is, without taking its root.
#[inline(always)]
pub fn length_values<T: Scalar>(x: T, y: T, z: T, w: T) -> (r: T)
    ensures
        r == length_values_spec(x, y, z, w),
{
    let lsq = length_values_sq(x, y, z, w);
    if lsq.eq(T::zero()) {
        lsq
    } else {
        lsq.sqrt()
    }
}

/// One over the length of the vector `(x, y, z, w)`. A squared length that
/// compares equal to zero is returned as it is: nothing is divided by it.
#[inline(always)]
pub fn inv_length_values<T: Scalar>(x: T, y: T, z: T, w: T) -> (r: T)
    ensures
        r == inv_length_values_spec(x, y, z, w),
{
    let lsq = length_values_sq(x, y, z, w);
    if lsq.eq(T::zero()) {
        lsq
    } else {
        T::one().div(lsq.sqrt())
    }
}

/// The dot product of `a` and `b`.
#[inline(always)]
pub fn dot<T: Scalar>(a: [T; 4], b: [T; 4]) -> (r: T)
    ensures
        r == dot_spec(a@, b@),
{
    a[0].mul(b[0]).add(a[1].mul(b[1])).add(a[2].mul(b[2])).add(a[3].mul(b[3]))
}

/// The length of `out`.
#[inline(always)]
pub fn length<T: Scalar>(out: [T; 4]) -> (r: T)
    ensures
        r == length_spec(out@),
{
    length_values(out[0], out[1], out[2], out[3])
}

/// Writes `a` over its own length into `out`, and the zero vector where that
/// length compares equal to zero.
#[inline(always)]
pub fn normalize<T: Scalar>(out: &mut [T; 4], a: [T; 4]) -> (r: &mut [T; 4])
    ensures
        r@ == normalize_spec(a@),
        *final(out) == *final(r),
{
    let s = length(a);
    if s.eq(T::zero()) {
        out[0] = T::zero();
        out[1] = T::zero();
        out[2] = T::zero();
        out[3] = T::zero();
    } else {
        out[0] = a[0].div(s);
        out[1] = a[1].div(s);
        out[2] = a[2].div(s);
        out[3] = a[3].div(s);
    }
    assert(out@ =~= normalize_spec(a@));
    out
}

/// The zero vector has length zero and normalises to itself.
pub proof fn normalize_zero<T: Scalar>(a: Seq<T>)
    requires
        a == zero_spec::<T>(),
    ensures
        length_spec(a) == T::zero_spec(),
        normalize_spec(a) == a,
{
    T::law_zero_sum();
    T::law_zero_product();
    T::law_zero_eq();
    assert(normalize_spec(a) =~= a);
}

} // verus!
