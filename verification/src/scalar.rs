//! The scalar abstraction that every quaternion routine is generic over.
//!
//! A quaternion component is any type with the capabilities of [`Scalar`]:
//! the two units, a handful of small constants, the four arithmetic
//! operations, negation, absolute value, square root, comparison and the
//! trigonometric functions. Interpolation across two scalar types goes through
//! [`Cast`].
//!
//! Arithmetic is *total*: no operation of a scalar may fail, whatever its
//! operands. Each arithmetic operation is a function of its operands, and the
//! trait names that function (`add_spec`, `mul_spec`, ...), so that the
//! quaternion routines can state their results exactly. Nothing else is asked
//! of the arithmetic but the few laws at the end of the trait: it may round,
//! wrap or saturate, and sums need not be associative.
//!
//! The trigonometric operations are looser. Their precision may differ from
//! one platform to the next, so the trait only names a relation between
//! operand and result (`sine_is`, `cosine_is`, ...), and a routine that calls
//! one states what it handed in and what it did with whatever came back.
//!
//! [`i32`] is a scalar (see [`crate::integer`]). A floating-point type becomes
//! one through a wrapper type of the caller's that implements the trait on the
//! standard operators; where such an implementation is not verified, it gives
//! each operation's specification function the body of the operation itself,
//! and leaves the laws empty.
use vstd::prelude::*;

verus! {

/// The capabilities a quaternion component must have.
pub trait Scalar: Copy + Sized {
    /// The additive unit.
    spec fn zero_spec() -> Self;

    /// The multiplicative unit.
    spec fn one_spec() -> Self;

    /// The scalar that stands for the integer `n`.
    spec fn from_isize_spec(n: isize) -> Self;

    /// The scalar that stands for one half.
    spec fn half_spec() -> Self;

    /// The scalar that stands for one quarter.
    spec fn quarter_spec() -> Self;

    /// The sum `self + rhs`.
    spec fn add_spec(self, rhs: Self) -> Self;

    /// The difference `self - rhs`.
    spec fn sub_spec(self, rhs: Self) -> Self;

    /// The product `self * rhs`.
    spec fn mul_spec(self, rhs: Self) -> Self;

    /// The quotient `self / rhs`.
    spec fn div_spec(self, rhs: Self) -> Self;

    /// The negation `-self`.
    spec fn neg_spec(self) -> Self;

    /// The absolute value of `self`.
    spec fn abs_spec(self) -> Self;

    /// The square root of `self`.
    spec fn sqrt_spec(self) -> Self;

    /// Whether `self < rhs`.
    spec fn lt_spec(self, rhs: Self) -> bool;

    /// Whether `self` and `rhs` compare equal.
    spec fn eq_spec(self, rhs: Self) -> bool;

    /// Whether `r` may come back as the sine of `self`.
    spec fn sine_is(self, r: Self) -> bool;

    /// Whether `r` may come back as the cosine of `self`.
    spec fn cosine_is(self, r: Self) -> bool;

    /// Whether `r` may come back as the arc sine of `self`.
    spec fn arc_sine_is(self, r: Self) -> bool;

    /// Whether `r` may come back as the arc cosine of `self`.
    spec fn arc_cosine_is(self, r: Self) -> bool;

    /// Whether `r` may come back as the four-quadrant arc tangent of
    /// `self / other`.
    spec fn arc_tangent_is(self, other: Self, r: Self) -> bool;

    /// Zero.
    fn zero() -> (r: Self)
        ensures
            r == Self::zero_spec(),
    ;

    /// One.
    fn one() -> (r: Self)
        ensures
            r == Self::one_spec(),
    ;

    /// The scalar that stands for the integer `n`.
    fn from_isize(n: isize) -> (r: Self)
        ensures
            r == Self::from_isize_spec(n),
    ;

    /// One half.
    fn half() -> (r: Self)
        ensures
            r == Self::half_spec(),
    ;

    /// One quarter.
    fn quarter() -> (r: Self)
        ensures
            r == Self::quarter_spec(),
    ;

    /// `self + rhs`.
    fn add(self, rhs: Self) -> (r: Self)
        ensures
            r == self.add_spec(rhs),
    ;

    /// `self - rhs`.
    fn sub(self, rhs: Self) -> (r: Self)
        ensures
            r == self.sub_spec(rhs),
    ;

    /// `self * rhs`.
    fn mul(self, rhs: Self) -> (r: Self)
        ensures
            r == self.mul_spec(rhs),
    ;

    /// `self / rhs`. It must not fail, whatever `rhs` is.
    fn div(self, rhs: Self) -> (r: Self)
        ensures
            r == self.div_spec(rhs),
    ;

    /// `-self`.
    fn neg(self) -> (r: Self)
        ensures
            r == self.neg_spec(),
    ;

    /// The absolute value of `self`.
    fn abs(self) -> (r: Self)
        ensures
            r == self.abs_spec(),
    ;

    /// The square root of `self`. It must not fail on a negative `self`.
    fn sqrt(self) -> (r: Self)
        ensures
            r == self.sqrt_spec(),
    ;

    /// Whether `self < rhs`.
    fn lt(self, rhs: Self) -> (r: bool)
        ensures
            r == self.lt_spec(rhs),
    ;

    /// Whether `self == rhs`.
    fn eq(self, rhs: Self) -> (r: bool)
        ensures
            r == self.eq_spec(rhs),
    ;

    /// The sine of `self` radians.
    fn sin(self) -> (r: Self)
        ensures
            self.sine_is(r),
    ;

    /// The cosine of `self` radians.
    fn cos(self) -> (r: Self)
        ensures
            self.cosine_is(r),
    ;

    /// The arc sine of `self`, in radians.
    fn asin(self) -> (r: Self)
        ensures
            self.arc_sine_is(r),
    ;

    /// The arc cosine of `self`, in radians.
    fn acos(self) -> (r: Self)
        ensures
            self.arc_cosine_is(r),
    ;

    /// The angle, in radians, of the point with ordinate `self` and abscissa
    /// `other`.
    fn atan2(self, other: Self) -> (r: Self)
        ensures
            self.arc_tangent_is(other, r),
    ;

    /// Negating twice gives the operand back.
    proof fn law_neg_involutive(x: Self)
        ensures
            x.neg_spec().neg_spec() == x,
    ;

    /// Zero plus zero is zero.
    proof fn law_zero_sum()
        ensures
            Self::zero_spec().add_spec(Self::zero_spec()) == Self::zero_spec(),
    ;

    /// Zero times zero is zero.
    proof fn law_zero_product()
        ensures
            Self::zero_spec().mul_spec(Self::zero_spec()) == Self::zero_spec(),
    ;

    /// Zero compares equal to itself.
    proof fn law_zero_eq()
        ensures
            Self::zero_spec().eq_spec(Self::zero_spec()),
    ;

    /// Of two scalars at most one is below the other.
    proof fn law_lt_asymmetric(x: Self, y: Self)
        ensures
            x.lt_spec(y) ==> !y.lt_spec(x),
    ;

    /// Minus one is below one.
    proof fn law_units_ordered()
        ensures
            Self::one_spec().neg_spec().lt_spec(Self::one_spec()),
    ;
}

/// Whether zero behaves in `T` as it does where arithmetic is exact: a
/// product with zero is zero, and adding or subtracting zero changes nothing.
/// Rounding arithmetic with infinities or signed zeros does not meet this.
pub open spec fn zero_is_exact<T: Scalar>() -> bool {
    &&& forall|x: T| #[trigger] x.mul_spec(T::zero_spec()) == T::zero_spec()
    &&& forall|x: T| #[trigger] x.add_spec(T::zero_spec()) == x
    &&& forall|x: T| #[trigger] x.sub_spec(T::zero_spec()) == x
}

/// One over `x`, or zero where `x` compares equal to zero.
pub open spec fn reciprocal_spec<T: Scalar>(x: T) -> T {
    if x.eq_spec(T::zero_spec()) {
        T::zero_spec()
    } else {
        T::one_spec().div_spec(x)
    }
}

/// One over `x`, or zero where `x` compares equal to zero: the guard that
/// keeps a quaternion routine from dividing by zero.
pub fn reciprocal<T: Scalar>(x: T) -> (r: T)
    ensures
        r == reciprocal_spec(x),
{
    if x.eq(T::zero()) {
        T::zero()
    } else {
        T::one().div(x)
    }
}

/// A conversion from one scalar type to another, as `as` is between the
/// primitive numbers.
pub trait Cast<To>: Sized {
    /// The value of `self` in the type `To`.
    spec fn cast_spec(self) -> To;

    /// `self` in the type `To`.
    fn cast(self) -> (r: To)
        ensures
            r == self.cast_spec(),
    ;
}

} // verus!
