use platformer::fixed::{
    fx_abs, fx_add, fx_div, fx_from_int, fx_half, fx_hypot, fx_mul, fx_neg, fx_sub, int_sqrt, ONE,
};

#[test]
fn one_is_two_to_the_sixteenth() {
    assert_eq!(ONE, 65536);
    assert_eq!(fx_from_int(1), ONE);
    assert_eq!(fx_from_int(-3), -196608);
}

#[test]
fn from_int_saturates() {
    assert_eq!(fx_from_int(i64::MAX), i64::MAX);
    assert_eq!(fx_from_int(i64::MIN), i64::MIN);
}

#[test]
fn sum_and_difference_are_exact_in_range() {
    assert_eq!(fx_add(3 * ONE, 4 * ONE), 7 * ONE);
    assert_eq!(fx_sub(3 * ONE, 4 * ONE), -ONE);
    assert_eq!(fx_add(-5, 5), 0);
}

#[test]
fn sum_and_difference_saturate() {
    assert_eq!(fx_add(i64::MAX, 1), i64::MAX);
    assert_eq!(fx_add(i64::MIN, -1), i64::MIN);
    assert_eq!(fx_sub(i64::MIN, 1), i64::MIN);
    assert_eq!(fx_sub(i64::MAX, -1), i64::MAX);
}

#[test]
fn negation_and_absolute_value_saturate_at_the_minimum() {
    assert_eq!(fx_neg(5), -5);
    assert_eq!(fx_neg(i64::MIN), i64::MAX);
    assert_eq!(fx_abs(-7), 7);
    assert_eq!(fx_abs(7), 7);
    assert_eq!(fx_abs(i64::MIN), i64::MAX);
}

#[test]
fn product_of_scalars() {
    // 1.5 * 2 = 3
    assert_eq!(fx_mul(98304, 2 * ONE), 3 * ONE);
    // 0.5 * 0.5 = 0.25
    assert_eq!(fx_mul(32768, 32768), 16384);
    assert_eq!(fx_mul(0, 12345), 0);
}

#[test]
fn product_rounds_toward_zero() {
    // 3 raw times one half is 1.5 raw: 1 on either side of zero.
    assert_eq!(fx_mul(3, 32768), 1);
    assert_eq!(fx_mul(-3, 32768), -1);
    assert_eq!(fx_mul(3, -32768), -1);
    assert_eq!(fx_mul(-3, -32768), 1);
}

#[test]
fn product_saturates() {
    assert_eq!(fx_mul(i64::MAX, i64::MAX), i64::MAX);
    assert_eq!(fx_mul(i64::MIN, i64::MAX), i64::MIN);
    assert_eq!(fx_mul(i64::MIN, i64::MIN), i64::MAX);
}

#[test]
fn quotient_of_scalars() {
    // 3 / 2 = 1.5
    assert_eq!(fx_div(3 * ONE, 2 * ONE), 98304);
    // 1 / 3 rounds toward zero
    assert_eq!(fx_div(ONE, 3 * ONE), 21845);
    assert_eq!(fx_div(-ONE, 3 * ONE), -21845);
    assert_eq!(fx_div(ONE, -3 * ONE), -21845);
    assert_eq!(fx_div(-ONE, -3 * ONE), 21845);
}

#[test]
fn quotient_by_zero_is_pinned() {
    assert_eq!(fx_div(ONE, 0), i64::MAX);
    assert_eq!(fx_div(-ONE, 0), i64::MIN);
    assert_eq!(fx_div(0, 0), 0);
}

#[test]
fn quotient_saturates() {
    assert_eq!(fx_div(i64::MAX, 1), i64::MAX);
    assert_eq!(fx_div(i64::MIN, 1), i64::MIN);
}

#[test]
fn half_rounds_toward_zero() {
    assert_eq!(fx_half(32 * ONE), 16 * ONE);
    assert_eq!(fx_half(3), 1);
    assert_eq!(fx_half(-3), -1);
    assert_eq!(fx_half(i64::MIN), i64::MIN / 2);
}

#[test]
fn integer_square_roots() {
    assert_eq!(int_sqrt(0), 0);
    assert_eq!(int_sqrt(1), 1);
    assert_eq!(int_sqrt(2), 1);
    assert_eq!(int_sqrt(3), 1);
    assert_eq!(int_sqrt(4), 2);
    assert_eq!(int_sqrt(15), 3);
    assert_eq!(int_sqrt(16), 4);
    assert_eq!(int_sqrt(1_000_000), 1000);
    assert_eq!(int_sqrt(u128::MAX), 18446744073709551615);
}

#[test]
fn length_of_a_vector() {
    assert_eq!(fx_hypot(3 * ONE, 4 * ONE), 5 * ONE);
    assert_eq!(fx_hypot(-3 * ONE, 4 * ONE), 5 * ONE);
    assert_eq!(fx_hypot(0, 0), 0);
    assert_eq!(fx_hypot(0, -7), 7);
    assert_eq!(fx_hypot(1, 1), 1);
}

#[test]
fn length_saturates() {
    assert_eq!(fx_hypot(i64::MIN, i64::MIN), i64::MAX);
}
