//! The quaternion quotient.
use vstd::prelude::*;
use crate::mul::{hamilton, mul_spec, negated};
use crate::scalar::Scalar;

verus! {

/// The quotient that `div` writes: the Hamilton product of `a` and `b`, with
/// `b` as it stands.
pub open spec fn div_spec<T: Scalar>(a: Seq<T>, b: Seq<T>) -> Seq<T>
    recommends
        a.len() == 4,
        b.len() == 4,
{
    hamilton(a, b)
}

/// Writes the quotient of `a` by `b` into `out`. It is a formula of its own:
/// the terms of the Hamilton product with `b` taken as it stands. Nothing is
/// inverted, and no scalar is divided.
#[inline(always)]
pub fn div<T: Scalar>(out: &mut [T; 4], a: [T; 4], b: [T; 4]) -> (r: &mut [T; 4])
    ensures
        r@ == div_spec(a@, b@),
        *final(out) == *final(r),
{
    out[0] = a[0].mul(b[3]).add(a[3].mul(b[0])).add(a[1].mul(b[2])).sub(a[2].mul(b[1]));
    out[1] = a[1].mul(b[3]).add(a[3].mul(b[1])).add(a[2].mul(b[0])).sub(a[0].mul(b[2]));
    out[2] = a[2].mul(b[3]).add(a[3].mul(b[2])).add(a[0].mul(b[1])).sub(a[1].mul(b[0]));
    out[3] = a[3].mul(b[3]).sub(a[0].mul(b[0])).sub(a[1].mul(b[1])).sub(a[2].mul(b[2]));
    assert(out@ =~= div_spec(a@, b@));
    out
}

/// The product and the quotient differ in the sign of the second operand
/// alone: the product of `a` and `b` is the quotient of `a` by `-b`.
pub proof fn mul_is_div_by_negated<T: Scalar>(a: Seq<T>, b: Seq<T>)
    requires
        a.len() == 4,
        b.len() == 4,
    ensures
        mul_spec(a, b) == div_spec(a, negated(b)),
{
}

} // verus!
