//! End-to-end tests of `calculate`: values, precedence, and every error
//! variant of the taxonomy.

use calculator::calculate;
use calculator::error::CalculatorError;
use calculator::token::TokenKind;
use calculator::value::Value;

fn as_f64(v: &Value) -> f64 {
    v.num as f64 / v.den as f64
}

#[test]
fn precedence_mul_before_add() {
    let v = calculate("2 + 3 * 4").unwrap();
    assert!(v.eq_int(14));
    assert_eq!(v.num, 14);
    assert_eq!(v.den, 1);
}

#[test]
fn parentheses_override_precedence() {
    let v = calculate("(2 + 3) * 4").unwrap();
    assert!(v.eq_int(20));
    assert_eq!(v.num, 20);
    assert_eq!(v.den, 1);
}

#[test]
fn division_is_left_associative() {
    let v = calculate("10 / 2 / 5").unwrap();
    assert!(v.eq_int(1));
    assert_eq!(as_f64(&v), 1.0);
}

#[test]
fn double_unary_minus() {
    let v = calculate("--5").unwrap();
    assert!(v.eq_int(5));
}

#[test]
fn unary_minus_over_group() {
    let v = calculate("-(3+4)").unwrap();
    assert!(v.eq_int(-7));
}

#[test]
fn subtraction_is_left_associative() {
    let v = calculate("10 - 4 - 3").unwrap();
    assert!(v.eq_int(3));
}

#[test]
fn fractional_result() {
    let v = calculate("5 / 2").unwrap();
    assert_eq!(as_f64(&v), 2.5);
}

#[test]
fn decimal_literals() {
    let v = calculate("1.5 * 2").unwrap();
    assert!(v.eq_int(3));
    let w = calculate("0.5 + 0.25").unwrap();
    assert_eq!(as_f64(&w), 0.75);
}

#[test]
fn whitespace_is_skipped() {
    let v = calculate(" 2 \t+\t 3 ").unwrap();
    assert!(v.eq_int(5));
}

#[test]
fn unary_minus_in_products() {
    let v = calculate("-5 * -5").unwrap();
    assert!(v.eq_int(25));
}

#[test]
fn division_by_zero_literal() {
    assert_eq!(calculate("5 / 0"), Err(CalculatorError::DivisionByZero));
}

#[test]
fn division_by_zero_computed() {
    assert_eq!(calculate("1 / (2 - 2)"), Err(CalculatorError::DivisionByZero));
    assert_eq!(calculate("1 / 0.0"), Err(CalculatorError::DivisionByZero));
}

#[test]
fn missing_close_paren_is_unbalanced() {
    assert_eq!(calculate("(1 + 2"), Err(CalculatorError::UnbalancedParentheses));
}

#[test]
fn trailing_token_is_syntax_error() {
    assert_eq!(
        calculate("1 + 2)"),
        Err(CalculatorError::SyntaxError(TokenKind::EndOfInput, TokenKind::RightParen))
    );
}

#[test]
fn missing_close_paren_before_token() {
    assert_eq!(
        calculate("(1 + 2 3"),
        Err(CalculatorError::SyntaxError(TokenKind::RightParen, TokenKind::Number))
    );
}

#[test]
fn empty_input_is_rejected() {
    assert_eq!(calculate(""), Err(CalculatorError::EmptyExpression));
    assert_eq!(calculate("   "), Err(CalculatorError::EmptyExpression));
    assert_eq!(calculate("\t \n"), Err(CalculatorError::EmptyExpression));
}

#[test]
fn invalid_character_with_position() {
    assert_eq!(calculate("1 & 2"), Err(CalculatorError::InvalidCharacter('&', 2)));
}

#[test]
fn invalid_number_two_dots() {
    assert_eq!(calculate("1..2"), Err(CalculatorError::InvalidNumber(0, 4)));
}

#[test]
fn invalid_number_bare_dot() {
    assert_eq!(calculate("."), Err(CalculatorError::InvalidNumber(0, 1)));
    assert_eq!(calculate("2 + ."), Err(CalculatorError::InvalidNumber(4, 5)));
}

#[test]
fn invalid_number_longer_run() {
    assert_eq!(calculate("1.2.3"), Err(CalculatorError::InvalidNumber(0, 5)));
}

#[test]
fn operator_cannot_start_factor() {
    assert_eq!(calculate("*3"), Err(CalculatorError::UnexpectedToken(TokenKind::Multiply)));
    assert_eq!(calculate("2 + * 3"), Err(CalculatorError::UnexpectedToken(TokenKind::Multiply)));
    assert_eq!(calculate(")"), Err(CalculatorError::UnexpectedToken(TokenKind::RightParen)));
}

#[test]
fn oversized_literal_overflows() {
    assert_eq!(calculate("99999999999999999999"), Err(CalculatorError::Overflow));
    assert_eq!(calculate("0.00000000000000000001"), Err(CalculatorError::Overflow));
}

#[test]
fn oversized_product_overflows() {
    assert_eq!(
        calculate("9999999999 * 9999999999 * 9999999999"),
        Err(CalculatorError::Overflow)
    );
}

#[test]
fn evaluation_is_repeatable() {
    assert_eq!(calculate("7 * 3 - 1"), calculate("7 * 3 - 1"));
    assert_eq!(calculate("(8 / 3) + 0.5"), calculate("(8 / 3) + 0.5"));
    assert_eq!(calculate("1 & 2"), calculate("1 & 2"));
    assert_eq!(calculate(""), calculate(""));
}

#[test]
fn eq_int_distinguishes_values() {
    let v = calculate("3").unwrap();
    assert!(v.eq_int(3));
    assert!(!v.eq_int(4));
}

#[test]
fn deep_nesting_and_mixed_operators() {
    let v = calculate("((1 + 2) * (3 + 4) - 1) / 2").unwrap();
    assert_eq!(as_f64(&v), 10.0);
}
