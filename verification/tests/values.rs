//! Tests of the rational value type and of the driver used directly.

use calculator::error::CalculatorError;
use calculator::value::Value;
use calculator::Interpreter;

#[test]
fn exact_sum_of_integers() {
    let a = Value::from_int(2);
    let b = Value::from_int(3);
    assert_eq!(a.checked_add(b), Ok(Value { num: 5, den: 1 }));
}

#[test]
fn quotient_moves_sign_to_numerator() {
    let a = Value::from_int(1);
    let b = Value::from_int(-2);
    let q = a.checked_div(b).unwrap();
    assert_eq!(q, Value { num: -1, den: 2 });
    assert!(q.den > 0);
}

#[test]
fn negation_of_smallest_integer_overflows() {
    let v = Value { num: i64::MIN, den: 1 };
    assert_eq!(v.checked_neg(), Err(CalculatorError::Overflow));
}

#[test]
fn sum_beyond_the_largest_integer_overflows() {
    let v = Value { num: i64::MAX, den: 1 };
    assert_eq!(v.checked_add(Value::from_int(1)), Err(CalculatorError::Overflow));
}

#[test]
fn driver_runs_the_whole_pipeline() {
    let mut it = Interpreter::new(String::from("2 * 3")).unwrap();
    let v = it.interpret().unwrap();
    assert!(v.eq_int(6));
}

#[test]
fn driver_rejects_blank_input() {
    assert!(matches!(
        Interpreter::new(String::from(" \t ")),
        Err(CalculatorError::EmptyExpression)
    ));
}

#[test]
fn negative_divisor_in_an_expression() {
    let v = calculator::calculate("7 / -2").unwrap();
    assert_eq!(v.num as f64 / v.den as f64, -3.5);
}
