//! The mathematical model of the parser and evaluator.
//!
//! The grammar, with the usual precedence and left-associative binary
//! operators, is
//!
//! ```text
//! expr   := term ((PLUS | MINUS) term)*
//! term   := factor ((MUL | DIV) factor)*
//! factor := NUMBER | LPAREN expr RPAREN | MINUS factor
//! ```
//!
//! Evaluation happens while parsing: no tree is built. A state of the walk
//! is the input text, one lookahead token, and the cursor position behind
//! that token; tokens are pulled from [`scan_token`], so the model is
//! pull-based exactly like the executable pipeline. [`spec_eval`] is the
//! meaning of a whole input line: the exact rational it evaluates to, or
//! the error that stops it.

use vstd::prelude::*;
use crate::error::CalculatorError;
use crate::scan::{is_space_char, scan_token};
use crate::token::{Token, TokenKind};
use crate::value::{Rat, in_bounds, rat_add, rat_div, rat_mul, rat_neg, rat_sub};

verus! {

/// How much work a state of the grammar walk still has before it: the
/// characters after the cursor, plus one for a pending lookahead token.
/// Every grammar step shrinks it, which bounds the recursion.
pub open spec fn state_measure(s: Seq<char>, cur: Token, i: int) -> int {
    (if 0 <= i <= s.len() {
        s.len() - i
    } else {
        0int
    }) + (if cur == Token::EndOfInput {
        0int
    } else {
        1int
    })
}

/// Clips a lookahead state to one whose measure lies strictly below `m0`.
///
/// A scan always makes progress, so on every state the lexer actually
/// produces this is the identity (the executable parser proves as much at
/// each call); it only makes the recursion of the grammar functions
/// visibly well-founded.
pub open spec fn bounded_state(s: Seq<char>, m0: int, cur: Token, i: int) -> (Token, int) {
    if state_measure(s, cur, i) < m0 {
        (cur, i)
    } else {
        (Token::EndOfInput, s.len() as int)
    }
}

/// `factor := NUMBER | LPAREN expr RPAREN | MINUS factor`.
///
/// A number yields its value; a parenthesised group yields the enclosed
/// expression and requires the closing parenthesis — if the input ends
/// first, the parenthesis is unbalanced; a leading minus negates the
/// following factor. Any other lookahead cannot start a factor.
pub open spec fn sp_factor(s: Seq<char>, cur: Token, i: int) -> Result<
    (Rat, Token, int),
    CalculatorError,
>
    decreases state_measure(s, cur, i), 0int,
{
    let m = state_measure(s, cur, i);
    match cur {
        Token::Number(v) => match scan_token(s, i) {
            Ok((c2, i2)) => Ok((v@, c2, i2)),
            Err(e) => Err(e),
        },
        Token::LeftParen => match scan_token(s, i) {
            Ok((c2, i2)) => {
                let (ca, ia) = bounded_state(s, m, c2, i2);
                match sp_expr(s, ca, ia) {
                    Ok((v, c3, i3)) => if c3 == Token::RightParen {
                        match scan_token(s, i3) {
                            Ok((c4, i4)) => Ok((v, c4, i4)),
                            Err(e) => Err(e),
                        }
                    } else if c3 == Token::EndOfInput {
                        Err(CalculatorError::UnbalancedParentheses)
                    } else {
                        Err(CalculatorError::SyntaxError(TokenKind::RightParen, c3.kind_spec()))
                    },
                    Err(e) => Err(e),
                }
            },
            Err(e) => Err(e),
        },
        Token::Minus => match scan_token(s, i) {
            Ok((c2, i2)) => {
                let (ca, ia) = bounded_state(s, m, c2, i2);
                match sp_factor(s, ca, ia) {
                    Ok((v, c3, i3)) => if in_bounds(rat_neg(v)) {
                        Ok((rat_neg(v), c3, i3))
                    } else {
                        Err(CalculatorError::Overflow)
                    },
                    Err(e) => Err(e),
                }
            },
            Err(e) => Err(e),
        },
        _ => Err(CalculatorError::UnexpectedToken(cur.kind_spec())),
    }
}

/// The tail of `term`: folds `(MUL | DIV) factor` onto the value `acc`,
/// left to right. Division by a factor equal to zero is an error before
/// any quotient is formed.
pub open spec fn sp_term_rest(s: Seq<char>, acc: Rat, cur: Token, i: int) -> Result<
    (Rat, Token, int),
    CalculatorError,
>
    decreases state_measure(s, cur, i), 1int,
{
    let m = state_measure(s, cur, i);
    if cur == Token::Multiply || cur == Token::Divide {
        match scan_token(s, i) {
            Ok((c2, i2)) => {
                let (ca, ia) = bounded_state(s, m, c2, i2);
                match sp_factor(s, ca, ia) {
                    Ok((v2, c3, i3)) => if cur == Token::Divide && v2.num == 0 {
                        Err(CalculatorError::DivisionByZero)
                    } else {
                        let w = if cur == Token::Multiply {
                            rat_mul(acc, v2)
                        } else {
                            rat_div(acc, v2)
                        };
                        if in_bounds(w) {
                            let (cb, ib) = bounded_state(s, m, c3, i3);
                            sp_term_rest(s, w, cb, ib)
                        } else {
                            Err(CalculatorError::Overflow)
                        }
                    },
                    Err(e) => Err(e),
                }
            },
            Err(e) => Err(e),
        }
    } else {
        Ok((acc, cur, i))
    }
}

/// `term := factor ((MUL | DIV) factor)*`.
pub open spec fn sp_term(s: Seq<char>, cur: Token, i: int) -> Result<
    (Rat, Token, int),
    CalculatorError,
>
    decreases state_measure(s, cur, i), 2int,
{
    let m = state_measure(s, cur, i);
    match sp_factor(s, cur, i) {
        Ok((v, c2, i2)) => {
            let (ca, ia) = bounded_state(s, m, c2, i2);
            sp_term_rest(s, v, ca, ia)
        },
        Err(e) => Err(e),
    }
}

/// The tail of `expr`: folds `(PLUS | MINUS) term` onto the value `acc`,
/// left to right.
pub open spec fn sp_expr_rest(s: Seq<char>, acc: Rat, cur: Token, i: int) -> Result<
    (Rat, Token, int),
    CalculatorError,
>
    decreases state_measure(s, cur, i), 3int,
{
    let m = state_measure(s, cur, i);
    if cur == Token::Plus || cur == Token::Minus {
        match scan_token(s, i) {
            Ok((c2, i2)) => {
                let (ca, ia) = bounded_state(s, m, c2, i2);
                match sp_term(s, ca, ia) {
                    Ok((v2, c3, i3)) => {
                        let w = if cur == Token::Plus {
                            rat_add(acc, v2)
                        } else {
                            rat_sub(acc, v2)
                        };
                        if in_bounds(w) {
                            let (cb, ib) = bounded_state(s, m, c3, i3);
                            sp_expr_rest(s, w, cb, ib)
                        } else {
                            Err(CalculatorError::Overflow)
                        }
                    },
                    Err(e) => Err(e),
                }
            },
            Err(e) => Err(e),
        }
    } else {
        Ok((acc, cur, i))
    }
}

/// `expr := term ((PLUS | MINUS) term)*`.
pub open spec fn sp_expr(s: Seq<char>, cur: Token, i: int) -> Result<
    (Rat, Token, int),
    CalculatorError,
>
    decreases state_measure(s, cur, i), 4int,
{
    let m = state_measure(s, cur, i);
    match sp_term(s, cur, i) {
        Ok((v, c2, i2)) => {
            let (ca, ia) = bounded_state(s, m, c2, i2);
            sp_expr_rest(s, v, ca, ia)
        },
        Err(e) => Err(e),
    }
}

/// The whole parse: one `expr`, which must consume the entire input — a
/// trailing token is a syntax error (the expected kind is `EndOfInput`).
pub open spec fn sp_parse(s: Seq<char>, cur: Token, i: int) -> Result<Rat, CalculatorError>
    decreases state_measure(s, cur, i), 5int,
{
    match sp_expr(s, cur, i) {
        Ok((v, c2, _i2)) => if c2 == Token::EndOfInput {
            Ok(v)
        } else {
            Err(CalculatorError::SyntaxError(TokenKind::EndOfInput, c2.kind_spec()))
        },
        Err(e) => Err(e),
    }
}

/// Whether the text holds nothing but whitespace (so trimming leaves it
/// empty).
pub open spec fn all_whitespace(s: Seq<char>) -> bool {
    forall|k: int| 0 <= k < s.len() ==> is_space_char(#[trigger] s[k])
}

/// The meaning of one input line: an all-whitespace line is an empty
/// expression; otherwise the first token is pulled and the grammar runs
/// over the rest, yielding the exact rational value of the expression or
/// the first error on the way.
pub open spec fn spec_eval(s: Seq<char>) -> Result<Rat, CalculatorError> {
    if all_whitespace(s) {
        Err(CalculatorError::EmptyExpression)
    } else {
        match scan_token(s, 0) {
            Ok((c0, i0)) => sp_parse(s, c0, i0),
            Err(e) => Err(e),
        }
    }
}

} // verus!
