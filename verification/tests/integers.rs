use quat::{
    calculate_w, clamp, conjugate, copy, create, dot, eq, from_axis_sin_cos, from_mat, from_mat2,
    from_mat3, from_mat32, from_mat4, inv_length_values, inverse, length, length_values,
    length_values_sq, lerp, look_rotation, max, min, ne, nlerp, normalize, pivot, reciprocal,
    rotate, rotate_x_by, rotate_y_by, rotate_z_by, rotation_x_parts, rotation_y_sine,
    rotation_z_parts, slerp, slerp_by, Cast, Pivot, Scalar,
};

#[test]
fn test_create() {
    let v = create(1, 2, 3, 4);
    assert!(v[0] == 1);
    assert!(v[1] == 2);
    assert!(v[2] == 3);
    assert!(v[3] == 4);
}

#[test]
fn test_set() {
    let mut v = [0, 0, 0, 0];
    quat::set::set(&mut v, 1, 2, 3, 4);
    assert!(v == [1, 2, 3, 4]);
}

#[test]
fn test_length_values_sq() {
    assert!(length_values_sq(1, 1, 1, 1) == 4);
}

#[test]
fn test_length_values() {
    assert!(length_values(1, 1, 1, 1) == 2);
}

#[test]
fn test_dot() {
    assert!(dot([1, 1, 1, 1], [1, 1, 1, 1]) == 4);
}

#[test]
fn test_length() {
    assert!(length([1, 1, 1, 1]) == 2);
}

#[test]
fn test_conjugate() {
    let mut v = [0, 0, 0, 0];
    conjugate(&mut v, &[1, 1, 1, 1]);
    assert!(v[0] == -1);
    assert!(v[1] == -1);
    assert!(v[2] == -1);
    assert!(v[3] == 1);
}

#[test]
fn zero_and_identity_are_made_and_written() {
    assert_eq!(quat::create::zero::<i32>(), [0, 0, 0, 0]);
    assert_eq!(quat::create::identity::<i32>(), [0, 0, 0, 1]);
    let mut v = [7, 7, 7, 7];
    quat::set::zero(&mut v);
    assert_eq!(v, [0, 0, 0, 0]);
    quat::set::identity(&mut v);
    assert_eq!(v, [0, 0, 0, 1]);
}

#[test]
fn copy_and_clone_give_the_same_components() {
    assert_eq!(copy([1, 2, 3, 4]), [1, 2, 3, 4]);
    assert_eq!(quat::clone([5, 6, 7, 8]), [5, 6, 7, 8]);
}

#[test]
fn writers_return_the_output_for_chaining() {
    let mut tmp = [0, 0, 0, 0];
    let mut out = [0, 0, 0, 0];
    conjugate(&mut out, conjugate(&mut tmp, &[1, 2, 3, 4]));
    assert_eq!(tmp, [-1, -2, -3, 4]);
    assert_eq!(out, [1, 2, 3, 4]);
}

#[test]
fn conjugate_twice_is_the_identity_on_integers() {
    for q in [[1, 2, 3, 4], [0, 0, 0, 0], [i32::MIN, i32::MAX, -1, 1], [-7, 0, 9, i32::MIN]] {
        let mut once = [0; 4];
        let mut twice = [0; 4];
        conjugate(&mut once, &q);
        conjugate(&mut twice, &once);
        assert_eq!(twice, q);
    }
}

#[test]
fn integer_arithmetic_wraps() {
    assert_eq!(Scalar::add(i32::MAX, 1), i32::MIN);
    assert_eq!(Scalar::sub(i32::MIN, 1), i32::MAX);
    assert_eq!(Scalar::mul(65536, 65536), 0);
    assert_eq!(Scalar::mul(-3, 5), -15);
    assert_eq!(Scalar::neg(i32::MIN), i32::MIN);
    assert_eq!(Scalar::neg(12), -12);
    assert_eq!(Scalar::abs(i32::MIN), i32::MIN);
    assert_eq!(Scalar::abs(-12), 12);
    assert_eq!(Scalar::abs(12), 12);
}

#[test]
fn integer_division_truncates_and_never_fails() {
    assert_eq!(Scalar::div(7, 2), 3);
    assert_eq!(Scalar::div(-7, 2), -3);
    assert_eq!(Scalar::div(7, -2), -3);
    assert_eq!(Scalar::div(-7, -2), 3);
    assert_eq!(Scalar::div(0, 5), 0);
    assert_eq!(Scalar::div(5, 0), 0);
    assert_eq!(Scalar::div(i32::MIN, -1), i32::MIN);
    assert_eq!(Scalar::div(i32::MIN, 1), i32::MIN);
    assert_eq!(Scalar::div(i32::MIN, 2), -1073741824);
}

#[test]
fn integer_constants() {
    assert_eq!(<i32 as Scalar>::zero(), 0);
    assert_eq!(<i32 as Scalar>::one(), 1);
    assert_eq!(<i32 as Scalar>::from_isize(4), 4);
    assert_eq!(<i32 as Scalar>::from_isize(-2), -2);
    assert_eq!(<i32 as Scalar>::half(), 0);
    assert_eq!(<i32 as Scalar>::quarter(), 0);
    assert_eq!(Cast::<i32>::cast(17), 17);
}

#[test]
fn integer_square_root_is_the_floor() {
    assert_eq!(Scalar::sqrt(0), 0);
    assert_eq!(Scalar::sqrt(-9), 0);
    assert_eq!(Scalar::sqrt(1), 1);
    assert_eq!(Scalar::sqrt(3), 1);
    assert_eq!(Scalar::sqrt(4), 2);
    assert_eq!(Scalar::sqrt(99), 9);
    assert_eq!(Scalar::sqrt(100), 10);
    assert_eq!(Scalar::sqrt(i32::MAX), 46340);
}

#[test]
fn integer_comparisons() {
    assert!(Scalar::lt(1, 2));
    assert!(!Scalar::lt(2, 2));
    assert!(!Scalar::lt(3, 2));
    assert!(Scalar::eq(2, 2));
    assert!(!Scalar::eq(2, 3));
}

#[test]
fn integer_trigonometry_is_cut_toward_zero() {
    assert_eq!(Scalar::sin(0), 0);
    assert_eq!(Scalar::cos(0), 1);
    assert_eq!(Scalar::sin(1), 0);
    assert_eq!(Scalar::asin(1), 1);
    assert_eq!(Scalar::asin(5), 0);
    assert_eq!(Scalar::acos(-1), 3);
    assert_eq!(Scalar::acos(1), 0);
    assert_eq!(Scalar::acos(7), 0);
    assert_eq!(Scalar::atan2(0, -1), 3);
    assert_eq!(Scalar::atan2(1, 0), 1);
    assert_eq!(Scalar::atan2(-1, 0), -1);
}

#[test]
fn lengths_of_integer_vectors() {
    assert_eq!(length_values_sq(1, 2, 3, 4), 30);
    assert_eq!(length_values(1, 2, 3, 4), 5);
    assert_eq!(length_values(0, 0, 0, 0), 0);
    assert_eq!(inv_length_values(0, 0, 0, 0), 0);
    assert_eq!(inv_length_values(1, 0, 0, 0), 1);
    assert_eq!(inv_length_values(1, 1, 1, 1), 0);
    assert_eq!(dot([1, 2, 3, 4], [5, 6, 7, 8]), 70);
    assert_eq!(length([0, 3, 4, 0]), 5);
}

#[test]
fn normalize_of_integer_vectors() {
    let mut v = [9, 9, 9, 9];
    normalize(&mut v, [0, 0, 0, 0]);
    assert_eq!(v, [0, 0, 0, 0]);
    normalize(&mut v, [0, 6, 8, 0]);
    assert_eq!(v, [0, 0, 0, 0]);
    normalize(&mut v, [0, 0, 0, -5]);
    assert_eq!(v, [0, 0, 0, -1]);
    normalize(&mut v, [10, 0, 0, 0]);
    assert_eq!(v, [1, 0, 0, 0]);
}

#[test]
fn min_and_max_worked_example() {
    let mut v = [9, 9, 9, 9];
    min(&mut v, &[1, 0, 1, 0], &[0, 1, 0, 1]);
    assert_eq!(v, [0, 0, 0, 0]);
    max(&mut v, &[1, 0, 1, 0], &[0, 1, 0, 1]);
    assert_eq!(v, [1, 1, 1, 1]);
}

#[test]
fn clamp_holds_each_component_between_its_bounds() {
    let mut v = [0, 0, 0, 0];
    clamp(&mut v, &[2, 2, 2, 2], &[0, 0, 0, 0], &[1, 1, 1, 1]);
    assert_eq!(v, [1, 1, 1, 1]);
    clamp(&mut v, &[-5, 0, 3, 9], &[-1, -1, 4, 0], &[1, 1, 6, 8]);
    assert_eq!(v, [-1, 0, 4, 8]);
}

#[test]
fn inverse_of_integer_quaternions() {
    let mut v = [9, 9, 9, 9];
    inverse(&mut v, &[0, 0, 0, 0]);
    assert_eq!(v, [0, 0, 0, 0]);
    inverse(&mut v, &[0, 0, 0, 1]);
    assert_eq!(v, [0, 0, 0, 1]);
    inverse(&mut v, &[1, 0, 0, 0]);
    assert_eq!(v, [-1, 0, 0, 0]);
    inverse(&mut v, &[1, 1, 1, 1]);
    assert_eq!(v, [0, 0, 0, 0]);
}

#[test]
fn calculate_w_takes_the_absolute_value_under_the_root() {
    let mut v = [0, 0, 0, 0];
    calculate_w(&mut v, &[0, 0, 0, 9]);
    assert_eq!(v, [0, 0, 0, 1]);
    calculate_w(&mut v, &[1, 0, 0, 9]);
    assert_eq!(v, [1, 0, 0, 0]);
    calculate_w(&mut v, &[1, 2, 2, 9]);
    assert_eq!(v, [1, 2, 2, 2]);
    calculate_w(&mut v, &[3, 2, 2, 9]);
    assert_eq!(v, [3, 2, 2, 4]);
}

#[test]
fn product_and_quotient_of_integer_quaternions() {
    let a = [1, 2, 3, 4];
    let b = [5, 6, 7, 8];
    let mut v = [0, 0, 0, 0];
    quat::mul(&mut v, &a, &b);
    assert_eq!(v, [-24, -48, -48, 6]);
    quat::div(&mut v, a, b);
    assert_eq!(v, [24, 48, 48, -6]);
    quat::mul(&mut v, &a, &[0, 0, 0, 1]);
    assert_eq!(v, [-1, -2, -3, -4]);
    quat::div(&mut v, a, [0, 0, 0, 1]);
    assert_eq!(v, a);
}

#[test]
fn lerp_and_nlerp_of_integer_quaternions() {
    let mut v = [9, 9, 9, 9];
    lerp(&mut v, &[0, 10, 20, 30], &[10, 10, 0, 60], 2);
    assert_eq!(v, [20, 10, -20, 90]);
    lerp(&mut v, &[0, 10, 20, 30], &[10, 10, 0, 60], 0);
    assert_eq!(v, [0, 10, 20, 30]);
    lerp(&mut v, &[0, 10, 20, 30], &[10, 10, 0, 60], 1);
    assert_eq!(v, [10, 10, 0, 60]);
    nlerp(&mut v, &[0, 0, 0, 2], &[0, 0, 0, 4], 1);
    assert_eq!(v, [0, 0, 0, 1]);
    nlerp(&mut v, &[0, 0, 0, 2], &[0, 0, 0, 4], -1);
    assert_eq!(v, [0, 0, 0, 0]);
}

#[test]
fn slerp_by_blends_linearly_on_a_short_arc() {
    let mut v = [9, 9, 9, 9];
    // cosine 1: 1 - 1 > 0 fails, so the sines are left aside.
    slerp_by::<i32, i32, i32>(&mut v, &[0, 0, 0, 1], &[0, 0, 0, 1], 3, 50, 60, 70);
    assert_eq!(v, [0, 0, 0, 1]);
    // cosine 12: weights 1 - 3 and 3.
    slerp_by::<i32, i32, i32>(&mut v, &[1, 1, 1, 3], &[1, 1, 1, 3], 3, 50, 60, 70);
    assert_eq!(v, [1, 1, 1, 3]);
    slerp_by::<i32, i32, i32>(&mut v, &[2, 0, 0, 0], &[1, 5, 0, 0], 3, 50, 60, 70);
    assert_eq!(v, [-1, 15, 0, 0]);
}

#[test]
fn slerp_by_weighs_by_the_sines_and_turns_the_far_end_round() {
    let mut v = [9, 9, 9, 9];
    // cosine 0, spherical: weights 6 / 1 and 8 / 1.
    slerp_by::<i32, i32, i32>(&mut v, &[1, 0, 0, 0], &[0, 1, 0, 0], 0, 1, 6, 8);
    assert_eq!(v, [6, 8, 0, 0]);
    slerp_by::<i32, i32, i32>(&mut v, &[1, 0, 0, 0], &[0, 1, 0, 0], 0, -1, 6, 8);
    assert_eq!(v, [-6, -8, 0, 0]);
    // dot product -1: b is negated, cosine 1, linear with t = 2.
    slerp_by::<i32, i32, i32>(&mut v, &[1, 0, 0, 0], &[-1, 0, 0, 0], 2, 2, 6, 8);
    assert_eq!(v, [1, 0, 0, 0]);
    // spherical with a sine of zero: nothing is divided, both weights are zero.
    slerp_by::<i32, i32, i32>(&mut v, &[1, 0, 0, 0], &[0, 1, 0, 0], 0, 0, 6, 8);
    assert_eq!(v, [0, 0, 0, 0]);
}

#[test]
fn slerp_of_equal_integer_quaternions() {
    let mut v = [9, 9, 9, 9];
    slerp::<i32, i32, i32>(&mut v, &[0, 0, 0, 1], &[0, 0, 0, 1], 0);
    assert_eq!(v, [0, 0, 0, 1]);
    slerp::<i32, i32, i32>(&mut v, &[0, 0, 0, 1], &[0, 0, 0, -1], 1);
    assert_eq!(v, [0, 0, 0, 1]);
}

#[test]
fn rotations_by_a_given_sine_and_cosine() {
    let a = [1, 2, 3, 4];
    let mut v = [0, 0, 0, 0];
    rotate_x_by(&mut v, &a, 5, 7);
    assert_eq!(v, [27, 29, 11, 23]);
    rotate_y_by(&mut v, &a, 5, 7);
    assert_eq!(v, [-8, 34, 26, 18]);
    rotate_z_by(&mut v, &a, 5, 7);
    assert_eq!(v, [17, 9, 41, 13]);
    rotate_x_by(&mut v, &a, 0, 1);
    assert_eq!(v, a);
}

#[test]
fn rotate_by_zero_angles_keeps_an_integer_quaternion() {
    let mut v = [9, 9, 9, 9];
    rotate(&mut v, &[1, 2, 3, 4], 0, 0, 0);
    assert_eq!(v, [1, 2, 3, 4]);
}

#[test]
fn euler_operands_of_integer_quaternions() {
    assert_eq!(rotation_x_parts(&[1, 2, 3, 4]), (20, -9));
    assert_eq!(rotation_x_parts(&[0, 0, 0, 1]), (0, 1));
    assert_eq!(rotation_x_parts(&[3, 0, 0, 5]), (30, -17));
    assert_eq!(rotation_z_parts(&[1, 2, 3, 4]), (28, -25));
    assert_eq!(rotation_y_sine(&[1, 2, 3, 4]), 1);
    assert_eq!(rotation_y_sine(&[1, -2, 3, 4]), -1);
    assert_eq!(rotation_y_sine(&[0, 0, 0, 1]), 0);
}

#[test]
fn look_rotation_of_integer_vectors() {
    let mut v = [9, 9, 9, 9];
    look_rotation(&mut v, [0, 0, 1], [0, 1, 0]);
    assert_eq!(v, [0, 0, 0, 2]);
    look_rotation(&mut v, [0, 0, 1], [0, 0, -1]);
    assert_eq!(v, [0, 0, 0, 0]);
    look_rotation(&mut v, [1, 2, 3], [4, 5, 6]);
    assert_eq!(v, [0, 0, 0, 2178]);
}

#[test]
fn axis_and_half_angle() {
    let mut v = [9, 9, 9, 9];
    from_axis_sin_cos(&mut v, [1, 2, 3], 4, 5);
    assert_eq!(v, [4, 8, 12, 5]);
}

#[test]
fn pivot_follows_the_trace_and_then_the_diagonal() {
    assert_eq!(pivot(1, 1, 1), Pivot::Trace);
    assert_eq!(pivot(0, 0, 1), Pivot::Trace);
    assert_eq!(pivot(1, -1, -1), Pivot::M11);
    assert_eq!(pivot(-1, 1, -1), Pivot::M22);
    assert_eq!(pivot(-1, -1, 1), Pivot::M33);
    assert_eq!(pivot(0, 0, 0), Pivot::M33);
    assert_eq!(pivot(1, 1, -2), Pivot::M22);
    assert_eq!(pivot(-3, 1, 1), Pivot::M33);
    assert_eq!(pivot(1, -3, 1), Pivot::M33);
}

#[test]
fn from_mat_on_integer_matrices() {
    let mut v = [9, 9, 9, 9];
    from_mat(&mut v, 1, 0, 0, 0, 1, 0, 0, 0, 1);
    assert_eq!(v, [0, 0, 0, 0]);
    from_mat(&mut v, 3, 1, 2, 3, -2, 4, 5, 6, -2);
    assert_eq!(v, [1, 0, 0, 0]);
    from_mat(&mut v, -2, 1, 2, 3, 3, 4, 5, 6, -2);
    assert_eq!(v, [0, 1, 0, 0]);
    from_mat(&mut v, -2, 1, 2, 3, -2, 4, 5, 6, 3);
    assert_eq!(v, [0, 0, 1, 0]);
}

#[test]
fn matrix_adapters_read_column_by_column() {
    let mut v = [9, 9, 9, 9];
    let mut w = [9, 9, 9, 9];
    from_mat3(&mut v, [-2, 3, 5, 1, 3, 6, 2, 4, -2]);
    from_mat(&mut w, -2, 1, 2, 3, 3, 4, 5, 6, -2);
    assert_eq!(v, w);
    from_mat4(&mut v, [-2, 3, 5, 70, 1, -2, 6, 71, 2, 4, 3, 72, 73, 74, 75, 76]);
    from_mat(&mut w, -2, 1, 2, 3, -2, 4, 5, 6, 3);
    assert_eq!(v, w);
    from_mat2(&mut v, &[-4, 3, 5, -6]);
    from_mat(&mut w, -4, 5, 0, 3, -6, 0, 0, 0, 1);
    assert_eq!(v, w);
    from_mat32(&mut v, [-4, 3, 5, -6, 80, 81]);
    assert_eq!(v, w);
}

#[test]
fn vector_primitives_agree_with_vec4_on_integers() {
    let samples = [
        ([1, 0, 1, 0], [0, 1, 0, 1]),
        ([5, -2, 3, 100], [-5, 2, 3, 1000]),
        ([1, 2, 3, 4], [1, 2, 3, 4]),
        ([-7, 12, 9, 0], [6, -12, 100000, 0]),
    ];
    for (a, b) in samples {
        let mut ours = [9; 4];
        let mut theirs = [9; 4];

        min(&mut ours, &a, &b);
        vec4::min(&mut theirs, &a, &b);
        assert_eq!(ours, theirs);

        max(&mut ours, &a, &b);
        vec4::max(&mut theirs, &a, &b);
        assert_eq!(ours, theirs);

        assert_eq!(dot(a, b), vec4::dot(&a, &b));
        assert_eq!(length_values_sq(a[0], a[1], a[2], a[3]), vec4::len_sq(&a));
        assert_eq!(create(a[0], a[1], a[2], a[3]), vec4::new(a[0], a[1], a[2], a[3]));

        quat::set::set(&mut ours, b[0], b[1], b[2], b[3]);
        vec4::set(&mut theirs, b[0], b[1], b[2], b[3]);
        assert_eq!(ours, theirs);

        clamp(&mut ours, &a, &[-1, -1, 0, 0], &[1, 1, 2, 50]);
        theirs = a;
        vec4::clamp(&mut theirs, &[-1, -1, 0, 0], &[1, 1, 2, 50]);
        assert_eq!(ours, theirs);

        for t in [0, 1, 2, -3] {
            lerp(&mut ours, &a, &b, t);
            theirs = a;
            vec4::lerp(&mut theirs, &a, &b, &t);
            assert_eq!(ours, theirs);
        }
    }
}

#[test]
fn integer_scalars_meet_the_laws() {
    let samples = [0, 1, -1, 2, -46341, 46341, i32::MAX, i32::MIN, i32::MIN + 1];
    for x in samples {
        assert_eq!(Scalar::neg(Scalar::neg(x)), x);
        assert_eq!(Scalar::mul(x, 0), 0);
        assert_eq!(Scalar::add(x, 0), x);
        assert_eq!(Scalar::sub(x, 0), x);
        for y in samples {
            assert!(!(Scalar::lt(x, y) && Scalar::lt(y, x)));
        }
    }
    assert!(Scalar::lt(Scalar::neg(<i32 as Scalar>::one()), <i32 as Scalar>::one()));
    assert!(Scalar::eq(<i32 as Scalar>::zero(), <i32 as Scalar>::zero()));
}

#[test]
fn integer_reciprocal_never_divides_by_zero() {
    assert_eq!(reciprocal(0), 0);
    assert_eq!(reciprocal(1), 1);
    assert_eq!(reciprocal(-1), -1);
    assert_eq!(reciprocal(2), 0);
    assert_eq!(reciprocal(i32::MIN), 0);
}

#[test]
fn integer_radicands_are_at_least_one() {
    let values = [-268435456, -1000, -3, -1, 0, 1, 2, 1000, 268435456];
    for m11 in values {
        for m22 in values {
            for m33 in values {
                let radicand = match pivot(m11, m22, m33) {
                    Pivot::Trace => m11 + m22 + m33 + 1,
                    Pivot::M11 => 1 + m11 - m22 - m33,
                    Pivot::M22 => 1 + m22 - m11 - m33,
                    Pivot::M33 => 1 + m33 - m11 - m22,
                };
                assert!(radicand >= 1);
            }
        }
    }
}

#[test]
fn integer_trigonometry_stays_in_range() {
    let samples = [
        0, 1, -1, 2, -2, 3, -3, 4, 11, -22, 355, -355, 1000, 46341, 1 << 20, i32::MAX, i32::MIN,
    ];
    for x in samples {
        assert!((-1..=1).contains(&Scalar::sin(x)));
        assert!((-1..=1).contains(&Scalar::cos(x)));
        if (-1..=1).contains(&x) {
            assert!((-1..=1).contains(&Scalar::asin(x)));
            assert!((0..=3).contains(&Scalar::acos(x)));
        } else {
            assert_eq!(Scalar::asin(x), 0);
            assert_eq!(Scalar::acos(x), 0);
        }
        for y in samples {
            assert!((-3..=3).contains(&Scalar::atan2(y, x)));
        }
    }
    assert_eq!(Scalar::asin(-1), -1);
    assert_eq!(Scalar::acos(0), 1);
    assert_eq!(Scalar::atan2(0, 1), 0);
    assert_eq!(Scalar::atan2(-1, -1), -2);
}

#[test]
fn eq_and_ne_of_integer_quaternions() {
    let a = [1, 2, 3, 4];
    assert!(eq(&a, &a));
    assert!(!ne(&a, &a));
    for i in 0..4 {
        let mut b = a;
        b[i] = -a[i];
        assert!(!eq(&a, &b));
        assert!(ne(&a, &b));
    }
    assert!(ne(&[0, 0, 0, 0], &[1, 1, 1, 1]));
}
