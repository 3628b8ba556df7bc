use contact_solver::fx::{fxadd, fxclamp, fxdiv, fxmax, fxmin, fxmul, fxneg, fxsub, FP_ONE};

const ONE: i64 = FP_ONE;

#[test]
fn add_and_sub_are_exact_in_range() {
    assert_eq!(fxadd(3 * ONE, 2 * ONE), 5 * ONE);
    assert_eq!(fxsub(3 * ONE, 5 * ONE), -2 * ONE);
    assert_eq!(fxneg(7 * ONE), -7 * ONE);
}

#[test]
fn add_saturates_at_the_i64_range() {
    assert_eq!(fxadd(i64::MAX, 1), i64::MAX);
    assert_eq!(fxadd(i64::MIN, -1), i64::MIN);
    assert_eq!(fxsub(i64::MIN, 1), i64::MIN);
    assert_eq!(fxneg(i64::MIN), i64::MAX);
}

#[test]
fn mul_is_exact_on_whole_units() {
    assert_eq!(fxmul(3 * ONE, 2 * ONE), 6 * ONE);
    assert_eq!(fxmul(-5 * ONE, ONE / 2), -5 * ONE / 2);
    assert_eq!(fxmul(0, 123 * ONE), 0);
}

#[test]
fn mul_truncates_toward_zero() {
    // 1/65536 * 1/65536 rounds to zero from both sides.
    assert_eq!(fxmul(1, 1), 0);
    assert_eq!(fxmul(-1, 1), 0);
    assert_eq!(fxmul(i64::MAX, i64::MAX), i64::MAX);
}

#[test]
fn div_is_exact_on_powers_of_two() {
    assert_eq!(fxdiv(ONE, 2 * ONE), ONE / 2);
    assert_eq!(fxdiv(6 * ONE, 3 * ONE), 2 * ONE);
    assert_eq!(fxdiv(-6 * ONE, 3 * ONE), -2 * ONE);
}

#[test]
fn clamp_composes_max_then_min() {
    assert_eq!(fxmax(3, -4), 3);
    assert_eq!(fxmin(3, -4), -4);
    assert_eq!(fxclamp(5 * ONE, -ONE, ONE), ONE);
    assert_eq!(fxclamp(-5 * ONE, -ONE, ONE), -ONE);
    assert_eq!(fxclamp(ONE / 4, -ONE, ONE), ONE / 4);
}
