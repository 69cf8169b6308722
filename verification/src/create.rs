//! Making a quaternion.
use vstd::prelude::*;
use crate::scalar::Scalar;

verus! {

/// The quaternion `(x, y, z, w)`.
pub open spec fn create_spec<T>(x: T, y: T, z: T, w: T) -> Seq<T> {
    seq![x, y, z, w]
}

/// The zero quaternion `(0, 0, 0, 0)`.
pub open spec fn zero_spec<T: Scalar>() -> Seq<T> {
    create_spec(T::zero_spec(), T::zero_spec(), T::zero_spec(), T::zero_spec())
}

/// The identity rotation `(0, 0, 0, 1)`.
pub open spec fn identity_spec<T: Scalar>() -> Seq<T> {
    create_spec(T::zero_spec(), T::zero_spec(), T::zero_spec(), T::one_spec())
}

/// The quaternion `(x, y, z, w)`.
#[inline(always)]
pub fn create<T: Scalar>(x: T, y: T, z: T, w: T) -> (v: [T; 4])
    ensures
        v@ == create_spec(x, y, z, w),
{
    let v = [x, y, z, w];
    assert(v@ =~= create_spec(x, y, z, w));
    v
}

/// The zero quaternion.
#[inline(always)]
pub fn zero<T: Scalar>() -> (v: [T; 4])
    ensures
        v@ == zero_spec::<T>(),
{
    create(T::zero(), T::zero(), T::zero(), T::zero())
}

/// The identity rotation.
#[inline(always)]
pub fn identity<T: Scalar>() -> (v: [T; 4])
    ensures
        v@ == identity_spec::<T>(),
{
    create(T::zero(), T::zero(), T::zero(), T::one())
}

/// A copy of `v`.
#[inline(always)]
pub fn copy<T: Scalar>(v: [T; 4]) -> (r: [T; 4])
    ensures
        r == v,
{
    let r = create(v[0], v[1], v[2], v[3]);
    assert(r@ =~= v@);
    r
}

/// A copy of `v`.
#[inline(always)]
pub fn clone<T: Scalar>(v: [T; 4]) -> (r: [T; 4])
    ensures
        r == v,
{
    let r = create(v[0], v[1], v[2], v[3]);
    assert(r@ =~= v@);
    r
}

} // verus!
