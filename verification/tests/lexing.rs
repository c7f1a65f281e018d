//! Tests of the lexer on its own: the token stream, cursor behaviour at the
//! end of the input, and the value a decimal literal denotes.

use calculator::error::CalculatorError;
use calculator::lexer::Lexer;
use calculator::token::Token;
use calculator::value::Value;

#[test]
fn tokens_of_a_small_expression() {
    let mut lx = Lexer::new(String::from("1+2"));
    assert_eq!(lx.get_next_token(), Ok(Token::Number(Value { num: 1, den: 1 })));
    assert_eq!(lx.get_next_token(), Ok(Token::Plus));
    assert_eq!(lx.get_next_token(), Ok(Token::Number(Value { num: 2, den: 1 })));
    assert_eq!(lx.get_next_token(), Ok(Token::EndOfInput));
}

#[test]
fn end_of_input_is_idempotent() {
    let mut lx = Lexer::new(String::from("7"));
    assert_eq!(lx.get_next_token(), Ok(Token::Number(Value { num: 7, den: 1 })));
    assert_eq!(lx.get_next_token(), Ok(Token::EndOfInput));
    assert_eq!(lx.get_next_token(), Ok(Token::EndOfInput));
    assert_eq!(lx.get_next_token(), Ok(Token::EndOfInput));
}

#[test]
fn decimal_literal_keeps_exact_fraction() {
    let mut lx = Lexer::new(String::from("1.25"));
    assert_eq!(lx.get_next_token(), Ok(Token::Number(Value { num: 125, den: 100 })));
}

#[test]
fn trailing_dot_literal_is_valid() {
    let mut lx = Lexer::new(String::from("1."));
    assert_eq!(lx.get_next_token(), Ok(Token::Number(Value { num: 1, den: 1 })));
}

#[test]
fn leading_dot_literal_is_valid() {
    let mut lx = Lexer::new(String::from(".5"));
    assert_eq!(lx.get_next_token(), Ok(Token::Number(Value { num: 5, den: 10 })));
}

#[test]
fn all_operator_tokens() {
    let mut lx = Lexer::new(String::from("+ - * / ( )"));
    assert_eq!(lx.get_next_token(), Ok(Token::Plus));
    assert_eq!(lx.get_next_token(), Ok(Token::Minus));
    assert_eq!(lx.get_next_token(), Ok(Token::Multiply));
    assert_eq!(lx.get_next_token(), Ok(Token::Divide));
    assert_eq!(lx.get_next_token(), Ok(Token::LeftParen));
    assert_eq!(lx.get_next_token(), Ok(Token::RightParen));
    assert_eq!(lx.get_next_token(), Ok(Token::EndOfInput));
}

#[test]
fn lexer_reports_invalid_character_position() {
    let mut lx = Lexer::new(String::from("  @"));
    assert_eq!(lx.get_next_token(), Err(CalculatorError::InvalidCharacter('@', 2)));
}

#[test]
fn lexer_reports_invalid_number_range() {
    let mut lx = Lexer::new(String::from("3..14"));
    assert_eq!(lx.get_next_token(), Err(CalculatorError::InvalidNumber(0, 5)));
}

#[test]
fn skip_whitespace_moves_cursor() {
    let mut lx = Lexer::new(String::from("   9"));
    lx.skip_whitespace();
    assert_eq!(lx.position, 3);
    assert_eq!(lx.current_char, Some('9'));
}

#[test]
fn advance_stops_at_the_end() {
    let mut lx = Lexer::new(String::from("ab"));
    assert_eq!(lx.current_char, Some('a'));
    lx.advance();
    assert_eq!(lx.current_char, Some('b'));
    lx.advance();
    assert_eq!(lx.current_char, None);
    lx.advance();
    assert_eq!(lx.current_char, None);
    assert_eq!(lx.position, 2);
}
