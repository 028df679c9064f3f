use orbit_controls::fixed::{clamp_to, div_toward_zero, integer_sqrt, saturate_to_i64, MICRO};

#[test]
fn division_rounds_toward_zero() {
    assert_eq!(div_toward_zero(7, 2), 3);
    assert_eq!(div_toward_zero(-7, 2), -3);
    assert_eq!(div_toward_zero(6, 2), 3);
    assert_eq!(div_toward_zero(-6, 2), -3);
    assert_eq!(div_toward_zero(1, 1000), 0);
    assert_eq!(div_toward_zero(-1, 1000), 0);
    assert_eq!(div_toward_zero(0, 5), 0);
}

#[test]
fn clamp_moves_into_the_range() {
    assert_eq!(clamp_to(5, 10, 20), 10);
    assert_eq!(clamp_to(10, 10, 20), 10);
    assert_eq!(clamp_to(15, 10, 20), 15);
    assert_eq!(clamp_to(20, 10, 20), 20);
    assert_eq!(clamp_to(25, 10, 20), 20);
    assert_eq!(clamp_to(i128::MAX, -3, 3), 3);
    assert_eq!(clamp_to(i128::MIN, -3, 3), -3);
}

#[test]
fn saturation_stops_at_the_ends_of_i64() {
    assert_eq!(saturate_to_i64(0), 0);
    assert_eq!(saturate_to_i64(i64::MAX as i128), i64::MAX);
    assert_eq!(saturate_to_i64(i64::MAX as i128 + 1), i64::MAX);
    assert_eq!(saturate_to_i64(i64::MIN as i128), i64::MIN);
    assert_eq!(saturate_to_i64(i64::MIN as i128 - 1), i64::MIN);
    assert_eq!(saturate_to_i64(-42), -42);
}

#[test]
fn integer_square_roots() {
    assert_eq!(integer_sqrt(0), 0);
    assert_eq!(integer_sqrt(1), 1);
    assert_eq!(integer_sqrt(2), 1);
    assert_eq!(integer_sqrt(3), 1);
    assert_eq!(integer_sqrt(4), 2);
    assert_eq!(integer_sqrt(24), 4);
    assert_eq!(integer_sqrt(25), 5);
    assert_eq!(integer_sqrt(26), 5);
    assert_eq!(integer_sqrt(10_000_000_000_000), 3_162_277);
    assert_eq!(integer_sqrt(u128::MAX), u64::MAX);
    assert_eq!(integer_sqrt(1u128 << 126), 1u64 << 63);
    assert_eq!(integer_sqrt((1u128 << 126) - 1), (1u64 << 63) - 1);
}

#[test]
fn integer_square_root_is_the_largest_whose_square_fits() {
    for n in 0u128..5000 {
        let r = integer_sqrt(n) as u128;
        assert!(r * r <= n);
        assert!((r + 1) * (r + 1) > n);
    }
}

#[test]
fn one_whole_is_a_million() {
    assert_eq!(MICRO, 1_000_000);
}
