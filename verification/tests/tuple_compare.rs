use integer_term::compare::{is_greater_than_or_equal, Term};
use integer_term::integer::Integer;

fn tuple(values: &[i64]) -> Term {
    Term::Tuple(values.iter().map(|v| Integer::from_native(*v)).collect())
}

fn is_greater_than_or_equal_with_left_1_2(right: Term, expected: bool) {
    let left = tuple(&[1, 2]);
    assert_eq!(is_greater_than_or_equal(&left, &right), expected);
}

#[test]
fn with_smaller_tuple_right_returns_true() {
    is_greater_than_or_equal_with_left_1_2(tuple(&[1]), true);
}

#[test]
fn with_same_size_tuple_with_greater_elements_returns_true() {
    is_greater_than_or_equal_with_left_1_2(tuple(&[1, 1]), true);
}

#[test]
fn with_same_value_tuple_returns_true() {
    is_greater_than_or_equal_with_left_1_2(tuple(&[1, 2]), true);
}

#[test]
fn with_same_size_tuple_with_greater_elements_returns_false() {
    is_greater_than_or_equal_with_left_1_2(tuple(&[1, 3]), false);
}

#[test]
fn with_greater_size_tuple_returns_false() {
    is_greater_than_or_equal_with_left_1_2(tuple(&[1, 2, 3]), false);
}

#[test]
fn number_ranks_below_tuple() {
    let number = Term::Number(Integer::from_native(999));
    let empty_tuple = tuple(&[]);
    assert!(is_greater_than_or_equal(&empty_tuple, &number));
    assert!(!is_greater_than_or_equal(&number, &empty_tuple));
}

#[test]
fn numbers_compare_by_value_across_representations() {
    let small = Term::Number(Integer::from_native(5));
    let equal = Term::Number(Integer::from_native(5));
    let big = Term::Number(integer_term::SmallInteger(1).shl(70));
    assert!(is_greater_than_or_equal(&small, &equal));
    assert!(is_greater_than_or_equal(&big, &small));
    assert!(!is_greater_than_or_equal(&small, &big));
}
