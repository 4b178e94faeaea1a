use sminer::fraction::{Fraction, ACCURACY};

#[test]
fn from_percent_gives_ten_million_parts_per_percent() {
    assert_eq!(Fraction::from_percent(0).deconstruct(), 0);
    assert_eq!(Fraction::from_percent(5).deconstruct(), 50_000_000);
    assert_eq!(Fraction::from_percent(15).deconstruct(), 150_000_000);
    assert_eq!(Fraction::from_percent(100).deconstruct(), ACCURACY);
}

#[test]
fn from_percent_caps_at_one_whole() {
    assert_eq!(Fraction::from_percent(101).deconstruct(), ACCURACY);
    assert_eq!(Fraction::from_percent(u32::MAX).deconstruct(), ACCURACY);
}

#[test]
fn from_rational_rounds_down() {
    assert_eq!(Fraction::from_rational(1, 3).deconstruct(), 333_333_333);
    assert_eq!(Fraction::from_rational(2, 3).deconstruct(), 666_666_666);
    assert_eq!(Fraction::from_rational(1, 4).deconstruct(), 250_000_000);
    assert_eq!(Fraction::from_rational(0, 7).deconstruct(), 0);
    assert_eq!(Fraction::from_rational(7, 7).deconstruct(), ACCURACY);
}

#[test]
fn from_rational_keeps_precision_for_large_operands() {
    let q: u128 = u128::MAX;
    assert_eq!(Fraction::from_rational(q / 2, q).deconstruct(), 499_999_999);
    assert_eq!(Fraction::from_rational(q, q).deconstruct(), ACCURACY);
    assert_eq!(Fraction::from_rational(1, q).deconstruct(), 0);
    let big: u128 = 3_000_000_000_000_000_000_000;
    assert_eq!(Fraction::from_rational(big / 3, big).deconstruct(), 333_333_333);
}

#[test]
fn from_rational_counts_an_undefined_quotient_as_one() {
    assert_eq!(Fraction::from_rational(5, 0).deconstruct(), ACCURACY);
    assert_eq!(Fraction::from_rational(0, 0).deconstruct(), ACCURACY);
}

#[test]
fn from_rational_counts_more_than_the_whole_as_one() {
    assert_eq!(Fraction::from_rational(9, 4).deconstruct(), ACCURACY);
}

#[test]
fn mul_floor_rounds_down() {
    assert_eq!(Fraction::from_percent(10).mul_floor(1005), 100);
    assert_eq!(Fraction::from_percent(25).mul_floor(1003), 250);
    assert_eq!(Fraction::from_percent(15).mul_floor(99), 14);
    assert_eq!(Fraction::from_percent(5).mul_floor(19), 0);
    assert_eq!(Fraction::from_rational(1, 3).mul_floor(3_000_000_000), 999_999_999);
}

#[test]
fn mul_floor_of_one_whole_is_the_value() {
    assert_eq!(Fraction::from_percent(100).mul_floor(u128::MAX), u128::MAX);
    assert_eq!(Fraction::from_percent(100).mul_floor(0), 0);
}

#[test]
fn mul_floor_handles_values_beyond_sixty_four_bits() {
    let x: u128 = 1u128 << 100;
    assert_eq!(Fraction::from_percent(50).mul_floor(x), 1u128 << 99);
    assert_eq!(Fraction::from_percent(0).mul_floor(x), 0);
    assert_eq!(
        Fraction::from_percent(10).mul_floor(u128::MAX),
        34_028_236_692_093_846_346_337_460_743_176_821_145
    );
}
