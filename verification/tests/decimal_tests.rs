use engine::decimal::Dec;
use engine::time::{millis_at_least, seconds_over};

fn d(s: &str) -> Dec {
    Dec::parse(s).unwrap()
}

#[test]
fn parse_keeps_mantissa_and_scale() {
    let x = d("-1.2345678");
    assert_eq!(x.mantissa(), -12345678);
    assert_eq!(x.scale(), 7);
    assert!(Dec::parse("abc").is_none());
    assert!(Dec::parse("").is_none());
}

#[test]
fn arithmetic_matches_rust_decimal() {
    let s = d("1.5").checked_add(d("2.25")).unwrap();
    assert_eq!((s.mantissa(), s.scale()), (375, 2));
    let s = d("1.5").checked_sub(d("2.25")).unwrap();
    assert_eq!((s.mantissa(), s.scale()), (-75, 2));
    let p = d("1.5").checked_mul(d("2.5")).unwrap();
    assert_eq!((p.mantissa(), p.scale()), (375, 2));
    let q = d("1").checked_div(d("4")).unwrap();
    assert!(q.eq_value(&d("0.25")));
}

#[test]
fn division_by_zero_and_overflow_are_none() {
    assert!(d("1").checked_div(d("0")).is_none());
    let max = d("79228162514264337593543950335");
    assert!(max.checked_add(max).is_none());
    assert!(max.checked_mul(d("2")).is_none());
    assert!(Dec::zero().checked_sub(max).unwrap().checked_sub(max).is_none());
}

#[test]
fn comparisons_are_numeric() {
    assert!(d("1.50").eq_value(&d("1.5")));
    assert!(d("1.49").lt(&d("1.5")));
    assert!(!d("1.5").lt(&d("1.50")));
    assert!(d("1.5").le(&d("1.50")));
    assert!(d("-2").lt(&d("1")));
    let m = d("2.0").min(d("2"));
    assert_eq!(m.scale(), 1);
    let m = d("3").min(d("2"));
    assert_eq!(m.mantissa(), 2);
}

#[test]
fn construction_bounds() {
    assert!(Dec::from_i128_with_scale(1, 29).is_none());
    assert!(Dec::from_i128_with_scale(79228162514264337593543950336, 0).is_none());
    assert!(Dec::from_i128_with_scale(-79228162514264337593543950335, 28).is_some());
    let x = Dec::new(25, 4);
    assert_eq!((x.mantissa(), x.scale()), (25, 4));
    assert!(Dec::zero().is_zero());
    assert!(!Dec::one().is_zero());
    assert_eq!(Dec::two().mantissa(), 2);
}

#[test]
fn whole_seconds_truncate_toward_zero() {
    // 3.999999999 s is 3 whole seconds, 4 s is 4; -3.999999999 s is -3
    assert!(!seconds_over(3_999_999_999, 0, 3));
    assert!(seconds_over(4_000_000_000, 0, 3));
    assert!(seconds_over(0, 3_999_999_999, -4));
    assert!(!seconds_over(0, 3_999_999_999, -3));
    // 5.999999 ms is 5 whole milliseconds; -1.999999 ms is -1
    assert!(millis_at_least(10_999_999, 5_000_000, 5));
    assert!(!millis_at_least(10_999_999, 5_000_000, 6));
    assert!(millis_at_least(0, 1_999_999, -1));
    assert!(!millis_at_least(0, 1_999_999, 0));
    // spans that overflow 128 bits of nanoseconds
    assert!(!seconds_over(i128::MIN, 1, i64::MIN));
    assert!(seconds_over(i128::MAX, -1, i64::MAX));
    assert!(!millis_at_least(i128::MIN, 0, i64::MIN));
}
