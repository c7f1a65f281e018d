//! The mathematical model of the lexer.
//!
//! These spec functions say, for any input text and position, what the next
//! token is and where the cursor stands afterwards. The executable
//! [`crate::lexer::Lexer`] is proved to follow [`scan_token`] exactly, and
//! the parser's model pulls its tokens from the same function, so the whole
//! pipeline shares one definition of lexical structure.
//!
//! A number is captured as a maximal run of digits and dots; the run is a
//! valid literal when it holds at least one digit and at most one dot, and
//! its value is the exact rational the decimal text denotes.

use vstd::prelude::*;
use crate::error::CalculatorError;
use crate::token::{Token, token_wf};
use crate::value::{Rat, Value, in_bounds};

verus! {

/// The whitespace the lexer skips between tokens.
pub open spec fn is_space_char(c: char) -> bool {
    c == ' ' || c == '\t' || c == '\n' || c == '\r'
}

/// A decimal digit.
pub open spec fn is_digit_char(c: char) -> bool {
    48 <= c as u32 <= 57
}

/// The numeric value of a digit.
pub open spec fn digit_val(c: char) -> int {
    c as u32 as int - 48
}

/// A character that may stand inside a captured number run.
pub open spec fn is_number_char(c: char) -> bool {
    is_digit_char(c) || c == '.'
}

/// The first position at or after `i` holding a non-whitespace character,
/// or the end of the text.
pub open spec fn skip_ws(s: Seq<char>, i: int) -> int
    decreases s.len() - i,
{
    if i < s.len() && is_space_char(s[i]) {
        skip_ws(s, i + 1)
    } else {
        i
    }
}

/// The end of the maximal run of digits and dots starting at `i`.
pub open spec fn num_run_end(s: Seq<char>, i: int) -> int
    decreases s.len() - i,
{
    if i < s.len() && is_number_char(s[i]) {
        num_run_end(s, i + 1)
    } else {
        i
    }
}

/// How many decimal digits the text holds.
pub open spec fn digit_count(t: Seq<char>) -> int
    decreases t.len(),
{
    if t.len() == 0 {
        0
    } else {
        digit_count(t.drop_last()) + if is_digit_char(t.last()) {
            1int
        } else {
            0int
        }
    }
}

/// How many dots the text holds.
pub open spec fn dot_count(t: Seq<char>) -> int
    decreases t.len(),
{
    if t.len() == 0 {
        0
    } else {
        dot_count(t.drop_last()) + if t.last() == '.' {
            1int
        } else {
            0int
        }
    }
}

/// A captured run is a valid numeric literal when it holds at least one
/// digit and at most one dot. A lone `.` or a run with two dots is rejected.
pub open spec fn valid_literal(t: Seq<char>) -> bool {
    digit_count(t) >= 1 && dot_count(t) <= 1
}

/// The numerator of the literal: its digits read as a decimal integer, the
/// dot ignored.
pub open spec fn lit_num(t: Seq<char>) -> int
    decreases t.len(),
{
    if t.len() == 0 {
        0
    } else if t.last() == '.' {
        lit_num(t.drop_last())
    } else {
        lit_num(t.drop_last()) * 10 + digit_val(t.last())
    }
}

/// The denominator of the literal: ten to the number of digits after the
/// dot, so that `num/den` is exactly the decimal the text denotes.
pub open spec fn lit_den(t: Seq<char>) -> int
    decreases t.len(),
{
    if t.len() == 0 {
        1
    } else if t.last() == '.' {
        lit_den(t.drop_last())
    } else if dot_count(t.drop_last()) > 0 {
        lit_den(t.drop_last()) * 10
    } else {
        lit_den(t.drop_last())
    }
}

/// The exact rational a valid literal denotes.
pub open spec fn lit_rat(t: Seq<char>) -> Rat {
    Rat { num: lit_num(t), den: lit_den(t) }
}

/// The token a valid, representable literal becomes.
pub open spec fn number_token(t: Seq<char>) -> Token {
    Token::Number(Value { num: lit_num(t) as i64, den: lit_den(t) as i64 })
}

/// The outcome of scanning the number run that starts at `j`: the captured
/// run is validated, then its value must fit the machine representation.
pub open spec fn scan_number_result(s: Seq<char>, j: int) -> Result<Token, CalculatorError>
    recommends
        0 <= j <= s.len(),
{
    let k = num_run_end(s, j);
    let t = s.subrange(j, k);
    if !valid_literal(t) {
        Err(CalculatorError::InvalidNumber(j as usize, k as usize))
    } else if !in_bounds(lit_rat(t)) {
        Err(CalculatorError::Overflow)
    } else {
        Ok(number_token(t))
    }
}

/// The next token of `s` when the cursor stands at `i`, with the cursor
/// position after it. Whitespace is skipped first; at the end of the input
/// the token is `EndOfInput` and the cursor rests at the end, so repeated
/// scans there keep yielding `EndOfInput`.
pub open spec fn scan_token(s: Seq<char>, i: int) -> Result<(Token, int), CalculatorError>
    recommends
        0 <= i <= s.len(),
{
    let j = skip_ws(s, i);
    if j >= s.len() {
        Ok((Token::EndOfInput, s.len() as int))
    } else if is_number_char(s[j]) {
        match scan_number_result(s, j) {
            Ok(t) => Ok((t, num_run_end(s, j))),
            Err(e) => Err(e),
        }
    } else if s[j] == '+' {
        Ok((Token::Plus, j + 1))
    } else if s[j] == '-' {
        Ok((Token::Minus, j + 1))
    } else if s[j] == '*' {
        Ok((Token::Multiply, j + 1))
    } else if s[j] == '/' {
        Ok((Token::Divide, j + 1))
    } else if s[j] == '(' {
        Ok((Token::LeftParen, j + 1))
    } else if s[j] == ')' {
        Ok((Token::RightParen, j + 1))
    } else {
        Err(CalculatorError::InvalidCharacter(s[j], j as usize))
    }
}

/// Skipping whitespace never moves the cursor backwards or past the end,
/// and it stops on a non-whitespace character.
pub proof fn lemma_skip_ws_bounds(s: Seq<char>, i: int)
    requires
        0 <= i <= s.len(),
    ensures
        i <= skip_ws(s, i) <= s.len(),
        skip_ws(s, i) < s.len() ==> !is_space_char(s[skip_ws(s, i)]),
    decreases s.len() - i,
{
    if i < s.len() && is_space_char(s[i]) {
        lemma_skip_ws_bounds(s, i + 1);
    }
}

/// A number run never moves the cursor backwards or past the end, and it
/// stops on a character that cannot continue a number.
pub proof fn lemma_num_run_bounds(s: Seq<char>, i: int)
    requires
        0 <= i <= s.len(),
    ensures
        i <= num_run_end(s, i) <= s.len(),
        num_run_end(s, i) < s.len() ==> !is_number_char(s[num_run_end(s, i)]),
    decreases s.len() - i,
{
    if i < s.len() && is_number_char(s[i]) {
        lemma_num_run_bounds(s, i + 1);
    }
}

/// A successful scan keeps the cursor inside the text and makes progress:
/// any token but `EndOfInput` moves the cursor strictly forward, and
/// `EndOfInput` parks it at the end.
pub proof fn lemma_scan_token_bounds(s: Seq<char>, i: int)
    requires
        0 <= i <= s.len(),
    ensures
        (match scan_token(s, i) {
            Ok((t, p)) => {
                &&& i <= p <= s.len()
                &&& (t == Token::EndOfInput ==> p == s.len())
                &&& (t != Token::EndOfInput ==> i < p)
                &&& token_wf(t)
            },
            Err(_) => true,
        }),
{
    lemma_skip_ws_bounds(s, i);
    let j = skip_ws(s, i);
    if j < s.len() && is_number_char(s[j]) {
        lemma_num_run_bounds(s, j + 1);
        assert(num_run_end(s, j) == num_run_end(s, j + 1));
    }
}

} // verus!
