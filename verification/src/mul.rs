//! The quaternion product.
use vstd::prelude::*;
use crate::scalar::Scalar;

verus! {

/// The Hamilton product of `a` and `b`. Each of `x`, `y` and `z` is three
/// terms added from the left and a fourth subtracted; `w` is one term with
/// three subtracted.
pub open spec fn hamilton<T: Scalar>(a: Seq<T>, b: Seq<T>) -> Seq<T>
    recommends
        a.len() == 4,
        b.len() == 4,
{
    seq![
        a[0].mul_spec(b[3]).add_spec(a[3].mul_spec(b[0])).add_spec(a[1].mul_spec(b[2])).sub_spec(
            a[2].mul_spec(b[1]),
        ),
        a[1].mul_spec(b[3]).add_spec(a[3].mul_spec(b[1])).add_spec(a[2].mul_spec(b[0])).sub_spec(
            a[0].mul_spec(b[2]),
        ),
        a[2].mul_spec(b[3]).add_spec(a[3].mul_spec(b[2])).add_spec(a[0].mul_spec(b[1])).sub_spec(
            a[1].mul_spec(b[0]),
        ),
        a[3].mul_spec(b[3]).sub_spec(a[0].mul_spec(b[0])).sub_spec(a[1].mul_spec(b[1])).sub_spec(
            a[2].mul_spec(b[2]),
        ),
    ]
}

/// `a` with every component negated.
pub open spec fn negated<T: Scalar>(a: Seq<T>) -> Seq<T>
    recommends
        a.len() == 4,
{
    seq![a[0].neg_spec(), a[1].neg_spec(), a[2].neg_spec(), a[3].neg_spec()]
}

/// The product that `mul` writes: the Hamilton product of `a` and `-b`.
pub open spec fn mul_spec<T: Scalar>(a: Seq<T>, b: Seq<T>) -> Seq<T>
    recommends
        a.len() == 4,
        b.len() == 4,
{
    hamilton(a, negated(b))
}

/// Writes the product of `a` and `b` into `out`. The signs are those of the
/// Hamilton product applied to `a` and `(-b.x, -b.y, -b.z, -b.w)`: every
/// component of `b` is negated before it is multiplied.
#[inline(always)]
pub fn mul<'a, 'b, T: Scalar>(out: &'a mut [T; 4], a: &'b [T; 4], b: &'b [T; 4]) -> (r:
    &'a mut [T; 4])
    ensures
        r@ == mul_spec(a@, b@),
        *final(out) == *final(r),
{
    let bx = b[0].neg();
    let by = b[1].neg();
    let bz = b[2].neg();
    let bw = b[3].neg();
    out[0] = a[0].mul(bw).add(a[3].mul(bx)).add(a[1].mul(bz)).sub(a[2].mul(by));
    out[1] = a[1].mul(bw).add(a[3].mul(by)).add(a[2].mul(bx)).sub(a[0].mul(bz));
    out[2] = a[2].mul(bw).add(a[3].mul(bz)).add(a[0].mul(by)).sub(a[1].mul(bx));
    out[3] = a[3].mul(bw).sub(a[0].mul(bx)).sub(a[1].mul(by)).sub(a[2].mul(bz));
    assert(out@ =~= mul_spec(a@, b@));
    out
}

} // verus!
