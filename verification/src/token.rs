//! Tokens: the atomic lexical units the lexer hands to the parser.

use vstd::prelude::*;
use crate::value::{Value, in_bounds};

verus! {

/// The tag of a token, without its payload.
///
/// Errors that speak of a token (a syntax error's expected and found tokens,
/// an unexpected token) carry this tag.
#[derive(Debug, Clone, Copy, PartialEq, Eq, Structural)]
pub enum TokenKind {
    Number,
    Plus,
    Minus,
    Multiply,
    Divide,
    LeftParen,
    RightParen,
    EndOfInput,
}

/// One lexical unit of the input.
///
/// A number carries its exact value; once the lexer reaches the end of the
/// input, every further pull yields `EndOfInput`.
#[derive(Debug, Clone, Copy, PartialEq, Eq, Structural)]
pub enum Token {
    Number(Value),
    Plus,
    Minus,
    Multiply,
    Divide,
    LeftParen,
    RightParen,
    EndOfInput,
}

/// A token the lexer can actually produce: a number token carries a
/// well-formed, representable value.
pub open spec fn token_wf(t: Token) -> bool {
    match t {
        Token::Number(v) => v.wf() && in_bounds(v@),
        _ => true,
    }
}

impl Token {
    /// The tag of this token.
    pub open spec fn kind_spec(self) -> TokenKind {
        match self {
            Token::Number(_) => TokenKind::Number,
            Token::Plus => TokenKind::Plus,
            Token::Minus => TokenKind::Minus,
            Token::Multiply => TokenKind::Multiply,
            Token::Divide => TokenKind::Divide,
            Token::LeftParen => TokenKind::LeftParen,
            Token::RightParen => TokenKind::RightParen,
            Token::EndOfInput => TokenKind::EndOfInput,
        }
    }

    /// Returns the tag of this token.
    pub fn kind(&self) -> (k: TokenKind)
        ensures
            k == self.kind_spec(),
    {
        match self {
            Token::Number(_) => TokenKind::Number,
            Token::Plus => TokenKind::Plus,
            Token::Minus => TokenKind::Minus,
            Token::Multiply => TokenKind::Multiply,
            Token::Divide => TokenKind::Divide,
            Token::LeftParen => TokenKind::LeftParen,
            Token::RightParen => TokenKind::RightParen,
            Token::EndOfInput => TokenKind::EndOfInput,
        }
    }
}

} // verus!
