//! `i32` as a quaternion scalar.
//!
//! Integer arithmetic is made total by wrapping: a sum, difference, product or
//! negation that leaves the range of `i32` comes back reduced modulo 2^32.
//! Division truncates toward zero; dividing by zero gives zero, and the one
//! quotient that does not fit, `i32::MIN / -1`, wraps to `i32::MIN`. One half
//! and one quarter have no integer counterpart but zero. The square root is
//! the floor of the real root, and zero for a negative operand.
//!
//! The trigonometric functions are computed in double precision and cut back
//! toward zero; a result without an integer counterpart becomes zero. Their
//! last digit depends on the platform's mathematics library, so only their
//! range is stated: a sine or cosine is one of -1, 0 and 1, an arc sine lies
//! within `[-1, 1]`, an arc cosine within `[0, 3]`, an arc tangent within
//! `[-3, 3]`, and the arc sine and arc cosine of a number outside `[-1, 1]`
//! are zero.
use vstd::prelude::*;
use vstd::wrapping::i32_specs::{wrapping_add, wrapping_mul, wrapping_sub};
use crate::scalar::{zero_is_exact, Cast, Scalar};
use crate::length::dot_spec;
use crate::misc::{slerp_cosine, slerp_is_spherical, widened};
use crate::create::{create_spec, identity_spec};
use crate::transform::{pivot_spec, radicand_spec, rotation_x_parts_spec, two, Pivot};

verus! {

/// The absolute value of `x`.
pub open spec fn magnitude(x: int) -> int {
    if x < 0 {
        -x
    } else {
        x
    }
}

/// The quotient of `x` by a non-zero `d`, rounded toward zero: the quotient of
/// the absolute values, negated where the signs differ.
pub open spec fn truncated_quotient(x: int, d: int) -> int
    recommends
        d != 0,
{
    if (x < 0) == (d < 0) {
        magnitude(x) / magnitude(d)
    } else {
        -(magnitude(x) / magnitude(d))
    }
}

/// Division toward zero never leaves the interval between the dividend and
/// its negation, and only `i32::MIN / -1` leaves the range of `i32`.
pub proof fn truncated_quotient_bounds(x: int, d: int)
    requires
        d != 0,
    ensures
        x == 0 ==> truncated_quotient(x, d) == 0,
        x >= 0 ==> -x <= truncated_quotient(x, d) <= x,
        x < 0 ==> x <= truncated_quotient(x, d) <= -x,
        x == i32::MIN && d != -1 ==> truncated_quotient(x, d) <= i32::MAX,
{
    let ax = magnitude(x);
    let ad = magnitude(d);
    vstd::arithmetic::div_mod::lemma_div_pos_is_pos(ax, ad);
    vstd::arithmetic::div_mod::lemma_div_nonincreasing(ax, ad);
    vstd::arithmetic::div_mod::lemma_div_of0(ad);
    if ad >= 2 {
        vstd::arithmetic::div_mod::lemma_div_is_ordered_by_denominator(ax, 2, ad);
    }
}

/// Whether `r` is the floor of the square root of `x`.
pub open spec fn is_floor_sqrt(x: int, r: int) -> bool {
    r >= 0 && r * r <= x && x < (r + 1) * (r + 1)
}

/// The floor of the square root of a non-negative `x`.
pub closed spec fn floor_sqrt(x: int) -> int {
    choose|r: int| is_floor_sqrt(x, r)
}

/// At most one number is the floor of the square root of `x`.
pub proof fn floor_sqrt_unique(x: int, r: int, s: int)
    requires
        is_floor_sqrt(x, r),
        is_floor_sqrt(x, s),
    ensures
        r == s,
{
    if r < s {
        assert((r + 1) * (r + 1) <= s * s) by (nonlinear_arith)
            requires
                0 <= r + 1 <= s,
        ;
    }
    if s < r {
        assert((s + 1) * (s + 1) <= r * r) by (nonlinear_arith)
            requires
                0 <= s + 1 <= r,
        ;
    }
}

/// Every non-negative number has a floor of its square root.
pub proof fn floor_sqrt_exists(x: int)
    requires
        x >= 0,
    ensures
        is_floor_sqrt(x, floor_sqrt(x)),
    decreases x,
{
    if x == 0 {
        assert(is_floor_sqrt(0, 0));
    } else {
        floor_sqrt_exists(x - 1);
        let r = floor_sqrt(x - 1);
        if (r + 1) * (r + 1) <= x {
            assert(x < (r + 2) * (r + 2)) by (nonlinear_arith)
                requires
                    x - 1 < (r + 1) * (r + 1),
                    r >= 0,
            ;
            assert(is_floor_sqrt(x, r + 1));
        } else {
            assert(is_floor_sqrt(x, r));
        }
    }
}

/// A number that meets the definition is the floor of the square root.
pub proof fn floor_sqrt_is(x: int, r: int)
    requires
        is_floor_sqrt(x, r),
    ensures
        floor_sqrt(x) == r,
{
    floor_sqrt_unique(x, r, floor_sqrt(x));
}

/// `num::integer::Roots::sqrt` on an `i32`, which panics on a negative
/// operand and otherwise returns the truncated principal square root: the
/// `r` with `r * r <= x < (r + 1) * (r + 1)`.
#[verifier::external_body]
fn roots_sqrt(x: i32) -> (r: i32)
    requires
        x >= 0,
    ensures
        is_floor_sqrt(x as int, r as int),
{
    num::integer::Roots::sqrt(&x)
}

/// `signed::Signed::abs` on an `i32`, which is the primitive's own `abs`: the
/// absolute value, where that fits (it overflows on `i32::MIN`).
#[verifier::external_body]
fn signed_abs(x: i32) -> (r: i32)
    requires
        x > i32::MIN,
    ensures
        r == magnitude(x as int),
{
    signed::Signed::abs(x)
}

/// `trig::Trig::sin` of `x` radians in double precision, converted there by
/// `num::ToPrimitive::to_f64` and back by `num::cast`, which cuts toward zero
/// and gives `None` for what has no counterpart in `i32`. The sine is
/// documented to lie within `[-1, 1]`, so what is left of it after the cut
/// does too; which of the three integers it is depends on the platform's
/// precision and is not claimed.
#[verifier::external_body]
fn float_sin(x: i32) -> (r: Option<i32>)
    ensures
        r matches Some(v) ==> -1 <= v <= 1,
{
    num::cast(trig::Trig::sin(&num::ToPrimitive::to_f64(&x)?))
}

/// `trig::Trig::cos` of `x` radians in double precision, converted as for
/// the sine. The cosine is documented to lie within `[-1, 1]`, so what is
/// left of it after the cut does too.
#[verifier::external_body]
fn float_cos(x: i32) -> (r: Option<i32>)
    ensures
        r matches Some(v) ==> -1 <= v <= 1,
{
    num::cast(trig::Trig::cos(&num::ToPrimitive::to_f64(&x)?))
}

/// `trig::Trig::asin` of `x` in double precision, converted as for the sine.
/// The arc sine is documented to lie within `[-pi/2, pi/2]`, which the cut
/// takes into `[-1, 1]`, and to be NaN for an `x` outside `[-1, 1]`, which
/// `num::cast` turns into `None`.
#[verifier::external_body]
fn float_asin(x: i32) -> (r: Option<i32>)
    ensures
        r matches Some(v) ==> -1 <= v <= 1,
        x < -1 || x > 1 ==> r is None,
{
    num::cast(trig::Trig::asin(&num::ToPrimitive::to_f64(&x)?))
}

/// `trig::Trig::acos` of `x` in double precision, converted as for the sine.
/// The arc cosine is documented to lie within `[0, pi]`, which the cut takes
/// into `[0, 3]`, and to be NaN for an `x` outside `[-1, 1]`, which
/// `num::cast` turns into `None`.
#[verifier::external_body]
fn float_acos(x: i32) -> (r: Option<i32>)
    ensures
        r matches Some(v) ==> 0 <= v <= 3,
        x < -1 || x > 1 ==> r is None,
{
    num::cast(trig::Trig::acos(&num::ToPrimitive::to_f64(&x)?))
}

/// `trig::Trig::atan2` of `y` and `x` in double precision, converted as for
/// the sine. The angle is documented to lie within `[-pi, pi]`, which the cut
/// takes into `[-3, 3]`.
#[verifier::external_body]
fn float_atan2(y: i32, x: i32) -> (r: Option<i32>)
    ensures
        r matches Some(v) ==> -3 <= v <= 3,
{
    num::cast(
        trig::Trig::atan2(&num::ToPrimitive::to_f64(&y)?, &num::ToPrimitive::to_f64(&x)?),
    )
}

/// The integer that a trigonometric result is kept as: itself, or zero where
/// it had no integer counterpart.
fn or_zero(v: Option<i32>) -> (r: i32)
    ensures
        v matches Some(n) ==> r == n,
        v is None ==> r == 0,
{
    match v {
        Some(n) => n,
        None => 0,
    }
}

impl Scalar for i32 {
    open spec fn zero_spec() -> i32 {
        0i32
    }

    open spec fn one_spec() -> i32 {
        1i32
    }

    open spec fn from_isize_spec(n: isize) -> i32 {
        n as i32
    }

    open spec fn half_spec() -> i32 {
        0i32
    }

    open spec fn quarter_spec() -> i32 {
        0i32
    }

    open spec fn add_spec(self, rhs: i32) -> i32 {
        wrapping_add(self, rhs)
    }

    open spec fn sub_spec(self, rhs: i32) -> i32 {
        wrapping_sub(self, rhs)
    }

    open spec fn mul_spec(self, rhs: i32) -> i32 {
        wrapping_mul(self, rhs)
    }

    open spec fn div_spec(self, rhs: i32) -> i32 {
        if rhs == 0 {
            0i32
        } else if self == i32::MIN && rhs == -1 {
            i32::MIN
        } else {
            truncated_quotient(self as int, rhs as int) as i32
        }
    }

    open spec fn neg_spec(self) -> i32 {
        wrapping_sub(0i32, self)
    }

    open spec fn abs_spec(self) -> i32 {
        if self < 0 {
            wrapping_sub(0i32, self)
        } else {
            self
        }
    }

    open spec fn sqrt_spec(self) -> i32 {
        if self <= 0 {
            0i32
        } else {
            floor_sqrt(self as int) as i32
        }
    }

    open spec fn lt_spec(self, rhs: i32) -> bool {
        self < rhs
    }

    open spec fn eq_spec(self, rhs: i32) -> bool {
        self == rhs
    }

    /// A sine cut toward zero: one of -1, 0 and 1.
    open spec fn sine_is(self, r: i32) -> bool {
        -1 <= r <= 1
    }

    /// A cosine cut toward zero: one of -1, 0 and 1.
    open spec fn cosine_is(self, r: i32) -> bool {
        -1 <= r <= 1
    }

    /// An angle of `[-pi/2, pi/2]` cut toward zero, and zero where `self` has
    /// no arc sine.
    open spec fn arc_sine_is(self, r: i32) -> bool {
        if -1 <= self <= 1 {
            -1 <= r <= 1
        } else {
            r == 0
        }
    }

    /// An angle of `[0, pi]` cut toward zero, and zero where `self` has no
    /// arc cosine.
    open spec fn arc_cosine_is(self, r: i32) -> bool {
        if -1 <= self <= 1 {
            0 <= r <= 3
        } else {
            r == 0
        }
    }

    /// An angle of `[-pi, pi]` cut toward zero.
    open spec fn arc_tangent_is(self, other: i32, r: i32) -> bool {
        -3 <= r <= 3
    }

    fn zero() -> (r: i32) {
        0
    }

    fn one() -> (r: i32) {
        1
    }

    fn from_isize(n: isize) -> (r: i32) {
        #[verifier::truncate]
        (n as i32)
    }

    fn half() -> (r: i32) {
        0
    }

    fn quarter() -> (r: i32) {
        0
    }

    fn add(self, rhs: i32) -> (r: i32) {
        self.wrapping_add(rhs)
    }

    fn sub(self, rhs: i32) -> (r: i32) {
        self.wrapping_sub(rhs)
    }

    fn mul(self, rhs: i32) -> (r: i32) {
        self.wrapping_mul(rhs)
    }

    fn div(self, rhs: i32) -> (r: i32) {
        proof {
            if rhs != 0 {
                truncated_quotient_bounds(self as int, rhs as int);
            }
        }
        let quotient = self.checked_div(rhs);
        proof {
            let x = self as int;
            let d = rhs as int;
            assert(x * -1 == -x && d * -1 == -d);
            if x == i32::MIN && d == -1 {
                vstd::arithmetic::div_mod::lemma_div_basics(-x);
            }
        }
        match quotient {
            Some(q) => q,
            None => if rhs == 0 {
                0
            } else {
                i32::MIN
            },
        }
    }

    fn neg(self) -> (r: i32) {
        0i32.wrapping_sub(self)
    }

    fn abs(self) -> (r: i32) {
        if self == i32::MIN {
            self
        } else {
            signed_abs(self)
        }
    }

    fn sqrt(self) -> (r: i32) {
        if self <= 0 {
            0
        } else {
            let r = roots_sqrt(self);
            proof {
                floor_sqrt_is(self as int, r as int);
            }
            r
        }
    }

    fn lt(self, rhs: i32) -> (r: bool) {
        self < rhs
    }

    fn eq(self, rhs: i32) -> (r: bool) {
        self == rhs
    }

    fn sin(self) -> (r: i32) {
        or_zero(float_sin(self))
    }

    fn cos(self) -> (r: i32) {
        or_zero(float_cos(self))
    }

    fn asin(self) -> (r: i32) {
        or_zero(float_asin(self))
    }

    fn acos(self) -> (r: i32) {
        or_zero(float_acos(self))
    }

    fn atan2(self, other: i32) -> (r: i32) {
        or_zero(float_atan2(self, other))
    }

    proof fn law_neg_involutive(x: i32) {
    }

    proof fn law_zero_sum() {
    }

    proof fn law_zero_product() {
        assert(0i32 * 0i32 == 0);
    }

    proof fn law_zero_eq() {
    }

    proof fn law_lt_asymmetric(x: i32, y: i32) {
    }

    proof fn law_units_ordered() {
    }
}

/// Integer arithmetic whose result fits in `i32` is exact: nothing wraps.
pub proof fn integer_arithmetic_in_range(x: i32, y: i32)
    ensures
        i32::MIN <= x + y <= i32::MAX ==> x.add_spec(y) == x + y,
        i32::MIN <= x - y <= i32::MAX ==> x.sub_spec(y) == x - y,
        i32::MIN <= x * y <= i32::MAX ==> x.mul_spec(y) == x * y,
        x > i32::MIN ==> x.neg_spec() == -x,
        x > i32::MIN ==> x.abs_spec() == magnitude(x as int),
        y != 0 && !(x == i32::MIN && y == -1) ==> x.div_spec(y) == truncated_quotient(
            x as int,
            y as int,
        ),
{
    if y != 0 {
        truncated_quotient_bounds(x as int, y as int);
    }
}

/// The square root of a non-negative integer is the floor of its real root.
pub proof fn integer_sqrt_is_floor(x: i32)
    requires
        x >= 0,
    ensures
        is_floor_sqrt(x as int, x.sqrt_spec() as int),
{
    if x == 0 {
        assert(is_floor_sqrt(0, 0));
    } else {
        floor_sqrt_exists(x as int);
        let r = floor_sqrt(x as int);
        assert(r <= x) by (nonlinear_arith)
            requires
                r >= 0,
                r * r <= x,
        ;
    }
}

/// Whether `m` is small enough for the terms of a diagonal to be added up
/// without wrapping.
pub open spec fn diagonal_fits(m: i32) -> bool {
    -0x1000_0000 <= m <= 0x1000_0000
}

/// Whatever the diagonal of an integer matrix, the conversion to a quaternion
/// takes the square root of a number that is at least one, and on the trace
/// at least two: the pivot is never near zero.
pub proof fn integer_radicand_is_positive(m11: i32, m22: i32, m33: i32)
    requires
        diagonal_fits(m11),
        diagonal_fits(m22),
        diagonal_fits(m33),
    ensures
        radicand_spec(m11, m22, m33) >= 1,
        pivot_spec(m11, m22, m33) == Pivot::Trace ==> radicand_spec(m11, m22, m33) >= 2,
{
}

/// Whether every component of `a` is small enough for a dot product to be
/// taken without wrapping.
pub open spec fn dot_fits(a: Seq<i32>) -> bool {
    forall|i: int| 0 <= i < a.len() ==> -0x4000 <= #[trigger] a[i] <= 0x4000
}

/// The product of two integers of at most fifteen bits does not wrap.
proof fn short_product(x: i32, y: i32)
    requires
        -0x4000 <= x <= 0x4000,
        -0x4000 <= y <= 0x4000,
    ensures
        x.mul_spec(y) == x * y,
        -0x1000_0000 <= x * y <= 0x1000_0000,
{
    assert(-0x1000_0000 <= x * y <= 0x1000_0000) by (nonlinear_arith)
        requires
            -0x4000 <= x <= 0x4000,
            -0x4000 <= y <= 0x4000,
    ;
}

/// Whatever the integer quaternions, the cosine that `slerp` interpolates by
/// is not negative, and where the arc is spherical it is below one: the arc
/// cosine is taken within its domain.
pub proof fn integer_slerp_cosine_in_domain(a: Seq<i32>, b: Seq<i32>)
    requires
        a.len() == 4,
        b.len() == 4,
        dot_fits(a),
        dot_fits(b),
    ensures
        slerp_cosine::<i32, i32>(a, b) >= 0,
        slerp_is_spherical(slerp_cosine::<i32, i32>(a, b)) ==> slerp_cosine::<i32, i32>(a, b) < 1,
{
    short_product(a[0], b[0]);
    short_product(a[1], b[1]);
    short_product(a[2], b[2]);
    short_product(a[3], b[3]);
    let wa = widened::<i32, i32>(a);
    let wb = widened::<i32, i32>(b);
    assert(wa =~= a && wb =~= b);
    let first = a[0].mul_spec(b[0]).add_spec(a[1].mul_spec(b[1]));
    assert(first == a[0] * b[0] + a[1] * b[1]);
    let second = first.add_spec(a[2].mul_spec(b[2]));
    assert(second == first + a[2] * b[2]);
    let raw = second.add_spec(a[3].mul_spec(b[3]));
    assert(raw == second + a[3] * b[3]);
    assert(raw == dot_spec(wa, wb));
    assert(-0x4000_0000 <= raw <= 0x4000_0000);
}

/// For a turn about x alone, the quaternion `(s, 0, 0, c)` of the half
/// angle's sine and cosine, the arc tangent of the rotation about x is taken
/// of `2*s*c` and `1 - 2*s*s`: the sine and the cosine of the whole angle. For
/// the identity `(0, 0, 0, 1)` they are 0 and 1.
pub proof fn integer_rotation_x_of_turn_about_x(s: i32, c: i32)
    requires
        -0x4000 <= s <= 0x4000,
        -0x4000 <= c <= 0x4000,
    ensures
        rotation_x_parts_spec(create_spec(s, 0i32, 0i32, c)) == (
            (2 * s * c) as i32,
            (1 - 2 * (s * s)) as i32,
        ),
        rotation_x_parts_spec(identity_spec::<i32>()) == (0i32, 1i32),
{
    let two = two::<i32>();
    assert(two == 2);
    assert(-0x8000 <= 2 * s <= 0x8000);
    assert(two.mul_spec(s) == 2 * s);
    assert(-0x2000_0000 <= (2 * s) * c <= 0x2000_0000) by (nonlinear_arith)
        requires
            -0x8000 <= 2 * s <= 0x8000,
            -0x4000 <= c <= 0x4000,
    ;
    assert(two.mul_spec(s).mul_spec(c) == (2 * s) * c);
    assert((2 * s) * c == 2 * s * c);
    assert(two.mul_spec(0i32) == 0 && 0i32.mul_spec(0i32) == 0) by {
        assert(2i32 * 0i32 == 0 && 0i32 * 0i32 == 0);
    }
    short_product(s, s);
    assert(0 <= s * s) by (nonlinear_arith);
    assert(two.mul_spec((s * s) as i32) == 2 * (s * s)) by {
        assert(2 * ((s * s) as i32) == 2 * (s * s));
    }
    assert(0i32.mul_spec(1i32) == 0 && two.mul_spec(0i32).mul_spec(1i32) == 0) by {
        assert(0i32 * 1i32 == 0);
    }
    assert(identity_spec::<i32>() =~= create_spec(0i32, 0i32, 0i32, 1i32));
}

/// Integer arithmetic is exact at zero.
pub proof fn integer_zero_is_exact()
    ensures
        zero_is_exact::<i32>(),
{
    assert forall|x: i32| #[trigger] x.mul_spec(0i32) == 0i32 by {
        assert(x * 0i32 == 0);
    }
}

impl Cast<i32> for i32 {
    open spec fn cast_spec(self) -> i32 {
        self
    }

    fn cast(self) -> (r: i32) {
        self
    }
}

} // verus!
