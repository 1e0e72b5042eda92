use metering::decimal::Dec;

fn d(num: i64, scale: u32) -> Dec {
    Dec::new(num, scale)
}

#[test]
fn equality_compares_values_not_scales() {
    assert_eq!(d(250, 2), d(25, 1));
    assert_ne!(d(25, 1), d(25, 2));
    assert!(d(-1, 0).lt(&Dec::zero()));
    assert!(d(1, 28).gt(&Dec::zero()));
    assert!(d(3, 1).le(&d(30, 2)));
    assert!(d(3, 1).ge(&d(30, 2)));
}

#[test]
fn addition_and_subtraction_are_exact_where_they_fit() {
    let s = d(25, 1).checked_add(&d(125, 3)).unwrap();
    assert_eq!(s.mantissa(), 2625);
    assert_eq!(s.scale(), 3);
    assert_eq!(d(1, 0).checked_sub(&d(1, 6)), Some(d(999999, 6)));
    let max = Dec::from_i128_with_scale(79228162514264337593543950335, 0);
    assert_eq!(max.checked_add(&d(1, 0)), None);
    assert_eq!(max.checked_sub(&d(1, 0)).unwrap().mantissa(), 79228162514264337593543950334);
}

#[test]
fn multiplication_and_division() {
    assert_eq!(d(25, 2).checked_mul(&d(8, 0)), Some(d(2, 0)));
    assert_eq!(d(25, 2).checked_mul(&d(8, 0)).unwrap().scale(), 2);
    assert_eq!(d(1, 0).checked_div(&d(4, 0)), Some(d(25, 2)));
    assert_eq!(d(1, 0).checked_div(&Dec::zero()), None);
    let third = d(1, 0).checked_div(&d(3, 0)).unwrap();
    assert_eq!(third.scale(), 28);
}

#[test]
fn cutting_goes_toward_zero() {
    assert_eq!(d(19, 1).cut_to(0), d(1, 0));
    assert_eq!(d(-19, 1).cut_to(0), d(-1, 0));
    assert_eq!(d(19, 1).cut_to(3).scale(), 1);
}

#[test]
fn min_and_max_pick_by_value() {
    assert_eq!(d(2, 0).max(d(3, 0)), d(3, 0));
    assert_eq!(d(2, 0).min(d(3, 0)), d(2, 0));
    assert_eq!(d(-5, 1).max(Dec::zero()), Dec::zero());
}

#[test]
fn a_running_sum_adds_left_to_right() {
    let xs = [d(1, 1), d(2, 2), d(3, 3)];
    assert_eq!(Dec::checked_sum(&xs), Some(d(123, 3)));
    assert_eq!(Dec::checked_sum(&[]), Some(Dec::zero()));
}

#[test]
fn display_writes_the_scale() {
    assert_eq!(d(250, 2).to_string(), "2.50");
    assert_eq!(d(-5, 3).to_string(), "-0.005");
    assert_eq!(Dec::from_u64(42).to_string(), "42");
}

#[test]
fn construction_checks_the_range() {
    assert!(Dec::try_from_i128_with_scale(1, 29).is_none());
    assert!(Dec::try_from_i128_with_scale(79228162514264337593543950336, 0).is_none());
    assert_eq!(Dec::try_from_i128_with_scale(-7, 2), Some(d(-7, 2)));
}

#[test]
fn negative_zero_keeps_its_sign_through_neg_rounding_and_addition() {
    let minus_zero = Dec::zero().neg();
    assert!(minus_zero.is_sign_negative());
    assert_eq!(minus_zero, Dec::zero());
    assert_eq!(minus_zero.to_string(), "-0");
    assert_eq!(minus_zero.neg().to_string(), "0");
    assert_eq!(minus_zero.abs().to_string(), "0");
    // a negative zero keeps its sign when rounded; a small negative value
    // rounded to zero is a plain zero
    assert_eq!(Dec::new(0, 3).neg().round_dp(2).to_string(), "-0.00");
    assert_eq!(Dec::new(0, 3).neg().cut_to(2).to_string(), "-0.00");
    assert_eq!(Dec::new(0, 3).neg().round_dp_away(2).to_string(), "-0.00");
    assert_eq!(Dec::new(-1, 3).round_dp(2).to_string(), "0.00");
    assert_eq!(Dec::new(-1, 3).cut_to(2).to_string(), "0.00");
    assert_eq!(Dec::new(-5, 3).round_dp_away(2).to_string(), "-0.01");
    // a zero left operand gives the right one back, sign and all
    assert_eq!(Dec::zero().checked_add(&minus_zero).unwrap().to_string(), "-0");
    assert_eq!(Dec::checked_sum(&[minus_zero]).unwrap().to_string(), "-0");
    // a zero product is a plain zero
    assert_eq!(minus_zero.checked_mul(&Dec::new(5, 0)).unwrap().to_string(), "0");
}
