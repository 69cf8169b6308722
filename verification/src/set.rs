//! Overwriting a quaternion in place.
use vstd::prelude::*;
use crate::create::{create_spec, identity_spec, zero_spec};
use crate::scalar::Scalar;

verus! {

/// Writes `(x, y, z, w)` into `out`.
#[inline(always)]
pub fn set<T: Scalar>(out: &mut [T; 4], x: T, y: T, z: T, w: T) -> (r: &mut [T; 4])
    ensures
        r@ == create_spec(x, y, z, w),
        *final(out) == *final(r),
{
    out[0] = x;
    out[1] = y;
    out[2] = z;
    out[3] = w;
    assert(out@ =~= create_spec(x, y, z, w));
    out
}

/// Writes the zero quaternion into `out`.
#[inline(always)]
pub fn zero<T: Scalar>(out: &mut [T; 4]) -> (r: &mut [T; 4])
    ensures
        r@ == zero_spec::<T>(),
        *final(out) == *final(r),
{
    set(out, T::zero(), T::zero(), T::zero(), T::zero())
}

/// Writes the identity rotation into `out`.
#[inline(always)]
pub fn identity<T: Scalar>(out: &mut [T; 4]) -> (r: &mut [T; 4])
    ensures
        r@ == identity_spec::<T>(),
        *final(out) == *final(r),
{
    set(out, T::zero(), T::zero(), T::zero(), T::one())
}

} // verus!
