//! The error taxonomy of the evaluator.
//!
//! Every failure is terminal: the evaluation that raised it stops at once and
//! the error reaches the caller unchanged. The variants are mutually
//! exclusive; each carries the plain data a caller needs to point at the
//! offending part of the input.

use vstd::prelude::*;
use crate::token::TokenKind;

verus! {

/// A failure of one evaluation.
///
/// Positions count characters of the original input, starting at zero.
#[derive(Debug, Clone, Copy, PartialEq, Eq, Structural)]
pub enum CalculatorError {
    /// A character outside the supported token set, with its position.
    InvalidCharacter(char, usize),
    /// A malformed numeric literal; the payload is the half-open character
    /// range of the captured text (a lone `.`, or a run with two dots).
    InvalidNumber(usize, usize),
    /// Token consumption expected one kind of token and found another, or a
    /// complete expression was followed by a trailing token (then the
    /// expected kind is `EndOfInput`).
    SyntaxError(TokenKind, TokenKind),
    /// The right-hand operand of `/` evaluated to exactly zero.
    DivisionByZero,
    /// An opening parenthesis was never closed.
    UnbalancedParentheses,
    /// The input held nothing but whitespace.
    EmptyExpression,
    /// A token that cannot start a factor.
    UnexpectedToken(TokenKind),
    /// A number or an intermediate result left the range the machine
    /// representation can hold exactly.
    Overflow,
}

} // verus!
