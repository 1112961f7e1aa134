use num_bigint::BigInt;

use integer_term::small::{ArithmeticError, MAX_VALUE, MIN_VALUE};
use integer_term::{Integer, SmallInteger};

#[test]
fn small_sums_stay_small() {
    let r = SmallInteger(3).add(SmallInteger(4));
    assert_eq!(r, Integer::Small(SmallInteger(7)));
    assert!(matches!(r, Integer::Small(_)));
}

#[test]
fn sum_past_max_value_promotes() {
    let r = SmallInteger(MAX_VALUE).add(SmallInteger(1));
    match &r {
        Integer::Big(b) => {
            // MAX_VALUE is 2^59 - 1, so the sum is exactly 2^59.
            assert_eq!(b.value, BigInt::from(1i64) << 59);
        },
        Integer::Small(_) => panic!("in-range representation of an out-of-range sum"),
    }
    assert_eq!(r, SmallInteger(1).shl(59));
}

#[test]
fn difference_past_min_value_promotes() {
    let r = SmallInteger(MIN_VALUE).sub(SmallInteger(1));
    match &r {
        Integer::Big(b) => {
            assert_eq!(b.value, BigInt::from(MIN_VALUE) - BigInt::from(1));
        },
        Integer::Small(_) => panic!("in-range representation of an out-of-range difference"),
    }
}

#[test]
fn negation_of_min_value_promotes() {
    let r = SmallInteger(MIN_VALUE).neg();
    match &r {
        Integer::Big(b) => assert_eq!(b.value, BigInt::from(1i64) << 59),
        Integer::Small(_) => panic!("in-range representation of an out-of-range negation"),
    }
    assert_eq!(SmallInteger(5).neg(), Integer::Small(SmallInteger(-5)));
}

#[test]
fn product_overflowing_native_width_is_exact() {
    let r = SmallInteger(MAX_VALUE).mul(SmallInteger(MAX_VALUE));
    match &r {
        Integer::Big(b) => {
            assert_eq!(b.value, BigInt::from(MAX_VALUE) * BigInt::from(MAX_VALUE));
        },
        Integer::Small(_) => panic!("in-range representation of an out-of-range product"),
    }
}

#[test]
fn product_within_native_width_but_past_small_range_promotes() {
    let operand = 1i64 << 30;
    let r = SmallInteger(operand).mul(SmallInteger(operand));
    match &r {
        Integer::Big(b) => assert_eq!(b.value, BigInt::from(1i64) << 60),
        Integer::Small(_) => panic!("in-range representation of an out-of-range product"),
    }
    assert_eq!(
        SmallInteger(6).mul(SmallInteger(-7)),
        Integer::Small(SmallInteger(-42))
    );
}

#[test]
fn division_by_zero_is_an_error_not_a_promotion() {
    assert_eq!(
        SmallInteger(5).div(SmallInteger(0)),
        Err(ArithmeticError::DivisionByZero)
    );
    assert_eq!(
        SmallInteger(5).rem(SmallInteger(0)),
        Err(ArithmeticError::DivisionByZero)
    );
}

#[test]
fn division_truncates_toward_zero() {
    assert_eq!(
        SmallInteger(7).div(SmallInteger(2)),
        Ok(Integer::Small(SmallInteger(3)))
    );
    assert_eq!(
        SmallInteger(-7).div(SmallInteger(2)),
        Ok(Integer::Small(SmallInteger(-3)))
    );
    assert_eq!(
        SmallInteger(7).div(SmallInteger(-2)),
        Ok(Integer::Small(SmallInteger(-3)))
    );
    assert_eq!(
        SmallInteger(-7).rem(SmallInteger(2)),
        Ok(Integer::Small(SmallInteger(-1)))
    );
    assert_eq!(
        SmallInteger(7).rem(SmallInteger(-2)),
        Ok(Integer::Small(SmallInteger(1)))
    );
}

#[test]
fn quotient_of_min_value_by_minus_one_promotes() {
    let r = SmallInteger(MIN_VALUE).div(SmallInteger(-1)).unwrap();
    match &r {
        Integer::Big(b) => assert_eq!(b.value, BigInt::from(1i64) << 59),
        Integer::Small(_) => panic!("in-range representation of an out-of-range quotient"),
    }
}

#[test]
fn complement_masks_to_the_magnitude_field() {
    assert_eq!(SmallInteger(0).not(), Integer::Small(SmallInteger(MAX_VALUE)));
    assert_eq!(SmallInteger(MAX_VALUE).not(), Integer::Small(SmallInteger(0)));
    assert_eq!(SmallInteger(-1).not(), Integer::Small(SmallInteger(0)));
    assert_eq!(SmallInteger(5).not(), Integer::Small(SmallInteger(MAX_VALUE - 5)));
}

#[test]
fn bitwise_operators_never_leave_the_small_range() {
    assert_eq!(
        SmallInteger(6).bitand(SmallInteger(3)),
        Integer::Small(SmallInteger(2))
    );
    assert_eq!(
        SmallInteger(6).bitor(SmallInteger(3)),
        Integer::Small(SmallInteger(7))
    );
    assert_eq!(
        SmallInteger(6).bitxor(SmallInteger(3)),
        Integer::Small(SmallInteger(5))
    );
    assert_eq!(
        SmallInteger(-1).bitand(SmallInteger(MAX_VALUE)),
        Integer::Small(SmallInteger(MAX_VALUE))
    );
    assert_eq!(
        SmallInteger(MIN_VALUE).bitor(SmallInteger(-1)),
        Integer::Small(SmallInteger(-1))
    );
    assert_eq!(
        SmallInteger(MIN_VALUE).bitxor(SmallInteger(MIN_VALUE)),
        Integer::Small(SmallInteger(0))
    );
}

#[test]
fn shift_left_promotes_exactly_when_the_result_leaves_the_range() {
    assert_eq!(SmallInteger(1).shl(3), Integer::Small(SmallInteger(8)));
    assert_eq!(SmallInteger(0).shl(1000), Integer::Small(SmallInteger(0)));
    match SmallInteger(1).shl(59) {
        Integer::Big(b) => assert_eq!(b.value, BigInt::from(1i64) << 59),
        Integer::Small(_) => panic!("in-range representation of an out-of-range shift"),
    }
    match SmallInteger(-3).shl(70) {
        Integer::Big(b) => assert_eq!(b.value, BigInt::from(-3i64) << 70),
        Integer::Small(_) => panic!("in-range representation of an out-of-range shift"),
    }
}

#[test]
fn shift_right_floors_and_never_promotes() {
    assert_eq!(SmallInteger(7).shr(1), Integer::Small(SmallInteger(3)));
    assert_eq!(SmallInteger(-8).shr(2), Integer::Small(SmallInteger(-2)));
    assert_eq!(SmallInteger(-1).shr(1), Integer::Small(SmallInteger(-1)));
    assert_eq!(SmallInteger(-7).shr(1), Integer::Small(SmallInteger(-4)));
    assert_eq!(SmallInteger(5).shr(1000), Integer::Small(SmallInteger(0)));
    assert_eq!(SmallInteger(-5).shr(1000), Integer::Small(SmallInteger(-1)));
    assert_eq!(
        SmallInteger(MIN_VALUE).shr(59),
        Integer::Small(SmallInteger(-1))
    );
}

#[test]
fn addition_and_multiplication_commute() {
    let pairs: [(i64, i64); 4] = [(3, 4), (-11, 29), (MAX_VALUE, 1), (MAX_VALUE, MAX_VALUE)];
    for (a, b) in pairs {
        assert_eq!(
            SmallInteger(a).add(SmallInteger(b)),
            SmallInteger(b).add(SmallInteger(a))
        );
        assert_eq!(
            SmallInteger(a).mul(SmallInteger(b)),
            SmallInteger(b).mul(SmallInteger(a))
        );
    }
}

#[test]
fn addition_and_multiplication_associate_on_small_intermediates() {
    let triples: [(i64, i64, i64); 2] = [(3, 4, 5), (-100, 250, 7)];
    for (a, b, c) in triples {
        let ab = match SmallInteger(a).add(SmallInteger(b)) {
            Integer::Small(s) => s,
            Integer::Big(_) => panic!("intermediate sum left the small range"),
        };
        let bc = match SmallInteger(b).add(SmallInteger(c)) {
            Integer::Small(s) => s,
            Integer::Big(_) => panic!("intermediate sum left the small range"),
        };
        assert_eq!(ab.add(SmallInteger(c)), SmallInteger(a).add(bc));
        let ab = match SmallInteger(a).mul(SmallInteger(b)) {
            Integer::Small(s) => s,
            Integer::Big(_) => panic!("intermediate product left the small range"),
        };
        let bc = match SmallInteger(b).mul(SmallInteger(c)) {
            Integer::Small(s) => s,
            Integer::Big(_) => panic!("intermediate product left the small range"),
        };
        assert_eq!(ab.mul(SmallInteger(c)), SmallInteger(a).mul(bc));
    }
}

#[test]
fn time_offset_boxes_the_clock_difference_canonically() {
    assert_eq!(
        integer_term::time_offset_0::native(10, 3),
        Integer::Small(SmallInteger(7))
    );
    match integer_term::time_offset_0::native(i64::MIN, i64::MAX) {
        Integer::Big(b) => {
            assert_eq!(b.value, BigInt::from(i64::MIN) - BigInt::from(i64::MAX));
        },
        Integer::Small(_) => panic!("in-range representation of an out-of-range offset"),
    }
}
