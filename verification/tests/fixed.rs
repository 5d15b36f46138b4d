use idle_terminal::fixed::{
    fixed_add, fixed_mul, fixed_sub, fixed_times, from_units, isqrt, FIXED_MAX, SCALE,
};

#[test]
fn units_round_trip() {
    assert_eq!(from_units(0), 0);
    assert_eq!(from_units(50), 50_000_000);
    assert_eq!(from_units(123), 123_000_000);
    assert_eq!(from_units(u64::MAX), u64::MAX as u128 * SCALE);
}

#[test]
fn addition_stops_at_the_ceiling() {
    assert_eq!(fixed_add(1, 2), 3);
    assert_eq!(fixed_add(FIXED_MAX, 1), FIXED_MAX);
    assert_eq!(fixed_add(FIXED_MAX - 1, 1), FIXED_MAX);
    assert_eq!(fixed_add(FIXED_MAX - 5, u128::MAX), FIXED_MAX);
}

#[test]
fn a_credit_never_lowers_what_is_held() {
    assert_eq!(fixed_add(FIXED_MAX + 7, 0), FIXED_MAX + 7);
    assert_eq!(fixed_add(FIXED_MAX + 7, 3), FIXED_MAX + 7);
    assert_eq!(fixed_add(u128::MAX, u128::MAX), u128::MAX);
    assert_eq!(fixed_add(0, 0), 0);
}

#[test]
fn a_debit_of_nothing_changes_nothing() {
    assert_eq!(fixed_sub(FIXED_MAX + 7, 0), FIXED_MAX + 7);
    assert_eq!(fixed_sub(u128::MAX, 0), u128::MAX);
    assert_eq!(fixed_sub(u128::MAX, 1), u128::MAX - 1);
    assert_eq!(fixed_sub(FIXED_MAX + 7, 8), FIXED_MAX - 1);
}

#[test]
fn subtraction_stops_at_zero() {
    assert_eq!(fixed_sub(5, 3), 2);
    assert_eq!(fixed_sub(3, 5), 0);
    assert_eq!(fixed_sub(3, 3), 0);
    assert_eq!(fixed_sub(0, u128::MAX), 0);
}

#[test]
fn multiplication_rounds_down() {
    assert_eq!(fixed_mul(from_units(3), 1_500_000), 4_500_000);
    assert_eq!(fixed_mul(1, 1_999_999), 1);
    assert_eq!(fixed_mul(1, 999_999), 0);
    assert_eq!(fixed_mul(from_units(10), 100_000), from_units(1));
    assert_eq!(fixed_mul(7, SCALE), 7);
    assert_eq!(fixed_mul(0, u128::MAX), 0);
}

#[test]
fn multiplication_stops_at_the_ceiling() {
    assert_eq!(fixed_mul(FIXED_MAX, 2_000_000), FIXED_MAX);
    assert_eq!(fixed_mul(u128::MAX, u128::MAX), FIXED_MAX);
    assert_eq!(fixed_mul(FIXED_MAX, SCALE), FIXED_MAX);
    assert_eq!(fixed_times(FIXED_MAX, 2), FIXED_MAX);
    assert_eq!(fixed_times(u128::MAX, u32::MAX), FIXED_MAX);
    assert_eq!(fixed_times(3, 4), 12);
    assert_eq!(fixed_times(3, 0), 0);
}

#[test]
fn integer_square_root() {
    assert_eq!(isqrt(0), 0);
    assert_eq!(isqrt(1), 1);
    assert_eq!(isqrt(3), 1);
    assert_eq!(isqrt(4), 2);
    assert_eq!(isqrt(8), 2);
    assert_eq!(isqrt(9), 3);
    assert_eq!(isqrt(99), 9);
    assert_eq!(isqrt(100), 10);
    assert_eq!(isqrt(1_000_000_000_000), 1_000_000);
    assert_eq!(isqrt(u128::MAX), u64::MAX as u128);
    for x in 0..2_000u128 {
        let r = isqrt(x);
        assert!(r * r <= x && x < (r + 1) * (r + 1));
    }
}
