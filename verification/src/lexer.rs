//! The lexer: turns the input text into tokens, one per call.
//!
//! The lexer owns the full input and a cursor. Each call of
//! [`Lexer::get_next_token`] skips whitespace, produces the next token, and
//! leaves the cursor behind it; at the end of the input every further call
//! yields `EndOfInput`. Each function is proved to follow the corresponding
//! spec function of [`crate::scan`].

use vstd::prelude::*;
use vstd::string::StrSliceExecFns;
use crate::error::CalculatorError;
use crate::scan::{
    digit_count, digit_val, dot_count, is_digit_char, is_number_char, is_space_char, lit_den,
    lit_num, lit_rat, num_run_end, scan_number_result, scan_token, skip_ws, valid_literal,
};
use crate::token::Token;
use crate::value::{Value, in_bounds};

verus! {

/// Whether `c` is whitespace the lexer skips.
fn is_space(c: char) -> (r: bool)
    ensures
        r == is_space_char(c),
{
    c == ' ' || c == '\t' || c == '\n' || c == '\r'
}

/// Whether `c` is a decimal digit.
fn is_digit(c: char) -> (r: bool)
    ensures
        r == is_digit_char(c),
{
    let u: u32 = c as u32;
    48 <= u && u <= 57
}

/// Whether `c` may stand inside a number run.
fn is_number_c(c: char) -> (r: bool)
    ensures
        r == is_number_char(c),
{
    is_digit(c) || c == '.'
}

/// The numeric value of a digit character.
fn digit_value(c: char) -> (r: i64)
    requires
        is_digit_char(c),
    ensures
        r as int == digit_val(c),
        0 <= r <= 9,
{
    let u: u32 = c as u32;
    (u - 48) as i64
}

/// Every prefix of a run of number characters denotes a numerator at least
/// zero and a denominator at least one, and both grow with the prefix; so a
/// bound crossed midway is crossed by the whole run as well.
proof fn lemma_lit_nonneg(t: Seq<char>)
    requires
        forall|k: int| 0 <= k < t.len() ==> is_number_char(#[trigger] t[k]),
    ensures
        lit_num(t) >= 0,
        lit_den(t) >= 1,
    decreases t.len(),
{
    if t.len() > 0 {
        assert(forall|k: int|
            0 <= k < t.drop_last().len() ==> is_number_char(#[trigger] t.drop_last()[k]));
        lemma_lit_nonneg(t.drop_last());
    }
}

/// Growing the prefix of a number run never shrinks its numerator or its
/// denominator.
proof fn lemma_lit_mono(t: Seq<char>, i: int, j: int)
    requires
        forall|k: int| 0 <= k < t.len() ==> is_number_char(#[trigger] t[k]),
        0 <= i <= j <= t.len(),
    ensures
        lit_num(t.subrange(0, i)) <= lit_num(t.subrange(0, j)),
        lit_den(t.subrange(0, i)) <= lit_den(t.subrange(0, j)),
    decreases j - i,
{
    if i < j {
        lemma_lit_mono(t, i, j - 1);
        let p1 = t.subrange(0, j - 1);
        let p2 = t.subrange(0, j);
        assert(p2.drop_last() =~= p1);
        assert(forall|k: int| 0 <= k < p1.len() ==> is_number_char(#[trigger] p1[k]));
        lemma_lit_nonneg(p1);
        if p2.last() != '.' {
            assert(is_number_char(p2.last()));
            assert(0 <= digit_val(p2.last()));
            assert(lit_num(p1) * 10 >= lit_num(p1));
            assert(lit_den(p1) * 10 >= lit_den(p1));
        }
    }
}

/// Computes the exact rational a captured literal denotes, or reports
/// overflow exactly when that rational has no machine representation.
pub fn literal_value(text: &Vec<char>) -> (r: Result<Value, CalculatorError>)
    requires
        forall|k: int| 0 <= k < text@.len() ==> is_number_char(#[trigger] text@[k]),
        valid_literal(text@),
    ensures
        (match r {
            Ok(v) => in_bounds(lit_rat(text@)) && v@ == lit_rat(text@),
            Err(e) => e == CalculatorError::Overflow && !in_bounds(lit_rat(text@)),
        }),
{
    let mut acc: i64 = 0;
    let mut den: i64 = 1;
    let mut seen_dot: bool = false;
    let mut i: usize = 0;
    proof {
        assert(text@.subrange(0, 0) =~= Seq::<char>::empty());
    }
    while i < text.len()
        invariant
            0 <= i <= text@.len(),
            forall|k: int| 0 <= k < text@.len() ==> is_number_char(#[trigger] text@[k]),
            acc as int == lit_num(text@.subrange(0, i as int)),
            den as int == lit_den(text@.subrange(0, i as int)),
            seen_dot == (dot_count(text@.subrange(0, i as int)) > 0),
            dot_count(text@.subrange(0, i as int)) >= 0,
            acc >= 0,
            den >= 1,
        decreases text@.len() - i,
    {
        let c: char = text[i];
        let ghost p1 = text@.subrange(0, i as int);
        let ghost p2 = text@.subrange(0, i as int + 1);
        proof {
            assert(p2.drop_last() =~= p1);
            assert(p2.last() == text@[i as int]);
        }
        if c == '.' {
            seen_dot = true;
        } else {
            let d: i64 = digit_value(c);
            let next_acc: i128 = acc as i128 * 10 + d as i128;
            if next_acc > i64::MAX as i128 {
                proof {
                    lemma_lit_mono(text@, i as int + 1, text@.len() as int);
                    assert(text@.subrange(0, text@.len() as int) =~= text@);
                }
                return Err(CalculatorError::Overflow);
            }
            if seen_dot {
                let next_den: i128 = den as i128 * 10;
                if next_den > i64::MAX as i128 {
                    proof {
                        lemma_lit_mono(text@, i as int + 1, text@.len() as int);
                        assert(text@.subrange(0, text@.len() as int) =~= text@);
                    }
                    return Err(CalculatorError::Overflow);
                }
                den = next_den as i64;
            }
            acc = next_acc as i64;
        }
        i = i + 1;
    }
    proof {
        assert(text@.subrange(0, text@.len() as int) =~= text@);
    }
    Ok(Value { num: acc, den })
}

/// The lexer: the input text, a cursor, and the character under the cursor.
///
/// The well-formedness invariant ties the cached character to the cursor:
/// it is the character at the cursor, or nothing once the cursor has
/// reached the end. The cursor never moves backwards.
pub struct Lexer {
    pub input: String,
    pub position: usize,
    pub current_char: Option<char>,
}

impl Lexer {
    /// The cursor stays inside the text and the cached character matches it.
    pub open spec fn wf(self) -> bool {
        &&& self.position <= self.input@.len()
        &&& self.current_char == (if self.position < self.input@.len() {
            Some(self.input@[self.position as int])
        } else {
            None::<char>
        })
    }

    /// Makes a lexer over `input` with the cursor at the first character.
    pub fn new(input: String) -> (l: Lexer)
        ensures
            l.wf(),
            l.input@ == input@,
            l.position == 0,
    {
        let n: usize = input.as_str().unicode_len();
        let c: Option<char> = if n > 0 {
            Some(input.as_str().get_char(0))
        } else {
            None
        };
        Lexer { input, position: 0, current_char: c }
    }

    /// Moves the cursor one character forward, or leaves it at the end.
    pub fn advance(&mut self)
        requires
            old(self).wf(),
        ensures
            final(self).wf(),
            final(self).input == old(self).input,
            old(self).position < old(self).input@.len() ==> final(self).position == old(
                self,
            ).position + 1,
            old(self).position >= old(self).input@.len() ==> final(self).position == old(
                self,
            ).position,
    {
        let n: usize = self.input.as_str().unicode_len();
        if self.position < n {
            self.position = self.position + 1;
        }
        if self.position < n {
            self.current_char = Some(self.input.as_str().get_char(self.position));
        } else {
            self.current_char = None;
        }
    }

    /// Moves the cursor past any whitespace under it.
    pub fn skip_whitespace(&mut self)
        requires
            old(self).wf(),
        ensures
            final(self).wf(),
            final(self).input == old(self).input,
            final(self).position as int == skip_ws(old(self).input@, old(self).position as int),
    {
        while self.current_char.is_some() && is_space(self.current_char.unwrap())
            invariant
                self.wf(),
                self.input == old(self).input,
                old(self).position <= self.position,
                skip_ws(self.input@, old(self).position as int) == skip_ws(
                    self.input@,
                    self.position as int,
                ),
            decreases self.input@.len() - self.position,
        {
            self.advance();
        }
    }

    /// Scans the maximal run of digits and dots under the cursor and turns
    /// it into a number token, or into the error the run deserves.
    pub fn number(&mut self) -> (r: Result<Token, CalculatorError>)
        requires
            old(self).wf(),
            old(self).position < old(self).input@.len(),
            is_number_char(old(self).input@[old(self).position as int]),
        ensures
            final(self).wf(),
            final(self).input == old(self).input,
            final(self).position as int == num_run_end(old(self).input@, old(self).position as int),
            r == scan_number_result(old(self).input@, old(self).position as int),
    {
        let ghost s = self.input@;
        let ghost j = self.position as int;
        let mut text: Vec<char> = Vec::new();
        let mut digits: usize = 0;
        let mut dots: usize = 0;
        let start: usize = self.position;
        let n: usize = self.input.as_str().unicode_len();
        proof {
            assert(s.subrange(j, j) =~= Seq::<char>::empty());
        }
        while self.current_char.is_some() && is_number_c(self.current_char.unwrap())
            invariant
                self.wf(),
                self.input == old(self).input,
                s == self.input@,
                s.len() == n as int,
                j == start as int,
                j <= self.position as int <= s.len(),
                text@ == s.subrange(j, self.position as int),
                num_run_end(s, j) == num_run_end(s, self.position as int),
                digits as int == digit_count(text@),
                dots as int == dot_count(text@),
                digits + dots == text@.len(),
                forall|k: int| j <= k < self.position as int ==> is_number_char(#[trigger] s[k]),
            decreases s.len() - self.position,
        {
            let c: char = self.current_char.unwrap();
            let ghost p1 = s.subrange(j, self.position as int);
            let ghost p2 = s.subrange(j, self.position as int + 1);
            proof {
                assert(p2.drop_last() =~= p1);
                assert(p2.last() == s[self.position as int]);
            }
            if is_digit(c) {
                digits = digits + 1;
            } else {
                dots = dots + 1;
            }
            text.push(c);
            self.advance();
            proof {
                assert(text@ =~= p2);
            }
        }
        let ghost k = self.position as int;
        proof {
            assert(num_run_end(s, k) == k);
            assert(forall|m: int| 0 <= m < text@.len() ==> is_number_char(#[trigger] text@[m]));
        }
        if digits == 0 || dots > 1 {
            return Err(CalculatorError::InvalidNumber(start, self.position));
        }
        match literal_value(&text) {
            Ok(v) => Ok(Token::Number(v)),
            Err(e) => Err(e),
        }
    }

    /// Produces the next token of the input and advances the cursor past
    /// it. At the end of the input it keeps returning `EndOfInput`.
    pub fn get_next_token(&mut self) -> (r: Result<Token, CalculatorError>)
        requires
            old(self).wf(),
        ensures
            final(self).wf(),
            final(self).input == old(self).input,
            (match scan_token(old(self).input@, old(self).position as int) {
                Ok((t, p)) => r == Ok::<Token, CalculatorError>(t) && final(self).position as int
                    == p,
                Err(e) => r == Err::<Token, CalculatorError>(e),
            }),
    {
        self.skip_whitespace();
        match self.current_char {
            None => Ok(Token::EndOfInput),
            Some(c) => {
                if is_number_c(c) {
                    self.number()
                } else if c == '+' {
                    self.advance();
                    Ok(Token::Plus)
                } else if c == '-' {
                    self.advance();
                    Ok(Token::Minus)
                } else if c == '*' {
                    self.advance();
                    Ok(Token::Multiply)
                } else if c == '/' {
                    self.advance();
                    Ok(Token::Divide)
                } else if c == '(' {
                    self.advance();
                    Ok(Token::LeftParen)
                } else if c == ')' {
                    self.advance();
                    Ok(Token::RightParen)
                } else {
                    Err(CalculatorError::InvalidCharacter(c, self.position))
                }
            },
        }
    }
}

} // verus!
