//! The parser: pulls tokens from the lexer and evaluates while parsing.
//!
//! The parser owns the lexer, holds exactly one lookahead token, and keeps a
//! count of the parentheses currently open. Each grammar function is proved
//! to return exactly what the corresponding spec function of
//! [`crate::grammar`] says for the state it starts in, and to leave the
//! parser in the state that function names.

use vstd::prelude::*;
use crate::error::CalculatorError;
use crate::grammar::{
    sp_expr, sp_expr_rest, sp_factor, sp_parse, sp_term, sp_term_rest, state_measure,
};
use crate::lexer::Lexer;
use crate::scan::{lemma_scan_token_bounds, scan_token};
use crate::token::{Token, TokenKind, token_wf};
use crate::value::Value;

verus! {

/// The parser state: the lexer, one lookahead token, and the number of
/// parentheses opened but not yet closed.
pub struct Parser {
    pub lexer: Lexer,
    pub current_token: Token,
    pub paren_count: usize,
}

impl Parser {
    /// The input text the parser walks over.
    pub open spec fn text(self) -> Seq<char> {
        self.lexer.input@
    }

    /// The cursor position behind the lookahead token.
    pub open spec fn pos(self) -> int {
        self.lexer.position as int
    }

    /// The measure of the parser state: how much input is still ahead.
    pub open spec fn measure(self) -> int {
        state_measure(self.text(), self.current_token, self.pos())
    }

    /// Well-formedness: the lexer invariant holds, the lookahead is a token
    /// the lexer can produce, and the open-parenthesis count never exceeds
    /// the characters consumed (each open parenthesis consumed one, and so
    /// did a pending `LeftParen` lookahead), so the counter cannot
    /// overflow.
    pub open spec fn wf(self) -> bool {
        &&& self.lexer.wf()
        &&& token_wf(self.current_token)
        &&& self.paren_count <= self.lexer.position
        &&& (self.current_token == Token::LeftParen ==> self.paren_count + 1
            <= self.lexer.position)
    }

    /// Makes a parser over `lexer` by pulling the first lookahead token; a
    /// lexer failure on that very first token is the parser's construction
    /// failure.
    pub fn new(lexer: Lexer) -> (r: Result<Parser, CalculatorError>)
        requires
            lexer.wf(),
        ensures
            (match scan_token(lexer.input@, lexer.position as int) {
                Ok((t, p)) => match r {
                    Ok(ps) => {
                        &&& ps.wf()
                        &&& ps.text() == lexer.input@
                        &&& ps.current_token == t
                        &&& ps.pos() == p
                        &&& ps.paren_count == 0
                    },
                    Err(_) => false,
                },
                Err(e) => r == Err::<Parser, CalculatorError>(e),
            }),
    {
        let ghost s = lexer.input@;
        let ghost p0 = lexer.position as int;
        let mut lx = lexer;
        match lx.get_next_token() {
            Ok(t) => {
                proof {
                    lemma_scan_token_bounds(s, p0);
                }
                Ok(Parser { lexer: lx, current_token: t, paren_count: 0 })
            },
            Err(e) => Err(e),
        }
    }

    /// Consumes the lookahead token if it has the expected kind and pulls
    /// the next one; a kind mismatch is a syntax error naming both kinds.
    pub fn eat(&mut self, expected: TokenKind) -> (r: Result<(), CalculatorError>)
        requires
            old(self).wf(),
        ensures
            final(self).text() == old(self).text(),
            (if old(self).current_token.kind_spec() == expected {
                match scan_token(old(self).text(), old(self).pos()) {
                    Ok((t, p)) => {
                        &&& r == Ok::<(), CalculatorError>(())
                        &&& final(self).wf()
                        &&& final(self).current_token == t
                        &&& final(self).pos() == p
                        &&& final(self).paren_count == old(self).paren_count
                        &&& (old(self).current_token != Token::EndOfInput
                            ==> final(self).measure() < old(self).measure())
                    },
                    Err(e) => r == Err::<(), CalculatorError>(e) && final(self).paren_count == old(
                        self,
                    ).paren_count,
                }
            } else {
                &&& r == Err::<(), CalculatorError>(
                    CalculatorError::SyntaxError(expected, old(self).current_token.kind_spec()),
                )
                &&& *final(self) == *old(self)
            }),
    {
        let ghost s = self.text();
        let ghost p0 = self.pos();
        if self.current_token.kind() == expected {
            match self.lexer.get_next_token() {
                Ok(t) => {
                    self.current_token = t;
                    proof {
                        lemma_scan_token_bounds(s, p0);
                    }
                    Ok(())
                },
                Err(e) => Err(e),
            }
        } else {
            Err(CalculatorError::SyntaxError(expected, self.current_token.kind()))
        }
    }

    /// `factor := NUMBER | LPAREN expr RPAREN | MINUS factor`.
    ///
    /// Returns exactly what [`sp_factor`] says for the state the parser
    /// starts in. A parenthesised group that meets the end of the input
    /// before its closing parenthesis fails as unbalanced; the counter of
    /// open parentheses returns to its old stand on success.
    pub fn factor(&mut self) -> (r: Result<Value, CalculatorError>)
        requires
            old(self).wf(),
        ensures
            final(self).text() == old(self).text(),
            (match sp_factor(old(self).text(), old(self).current_token, old(self).pos()) {
                Ok((rv, c2, i2)) => match r {
                    Ok(v) => {
                        &&& v@ == rv
                        &&& v.wf()
                        &&& final(self).wf()
                        &&& final(self).current_token == c2
                        &&& final(self).pos() == i2
                        &&& final(self).paren_count == old(self).paren_count
                        &&& final(self).measure() < old(self).measure()
                    },
                    Err(_) => false,
                },
                Err(e) => r == Err::<Value, CalculatorError>(e),
            }),
        decreases old(self).measure(), 0int,
    {
        let ghost s = self.text();
        let ghost pos0 = self.pos();
        match self.current_token {
            Token::Number(v) => {
                match self.eat(TokenKind::Number) {
                    Ok(()) => Ok(v),
                    Err(e) => Err(e),
                }
            },
            Token::LeftParen => {
                self.paren_count = self.paren_count + 1;
                match self.lexer.get_next_token() {
                    Ok(t) => {
                        self.current_token = t;
                        proof {
                            lemma_scan_token_bounds(s, pos0);
                        }
                        match self.expr() {
                            Ok(v) => {
                                match self.current_token {
                                    Token::RightParen => {
                                        match self.eat(TokenKind::RightParen) {
                                            Ok(()) => {
                                                self.paren_count = self.paren_count - 1;
                                                Ok(v)
                                            },
                                            Err(e) => Err(e),
                                        }
                                    },
                                    Token::EndOfInput => Err(
                                        CalculatorError::UnbalancedParentheses,
                                    ),
                                    _ => Err(
                                        CalculatorError::SyntaxError(
                                            TokenKind::RightParen,
                                            self.current_token.kind(),
                                        ),
                                    ),
                                }
                            },
                            Err(e) => Err(e),
                        }
                    },
                    Err(e) => Err(e),
                }
            },
            Token::Minus => {
                match self.eat(TokenKind::Minus) {
                    Ok(()) => {
                        match self.factor() {
                            Ok(v) => {
                                match v.checked_neg() {
                                    Ok(w) => Ok(w),
                                    Err(e) => Err(e),
                                }
                            },
                            Err(e) => Err(e),
                        }
                    },
                    Err(e) => Err(e),
                }
            },
            _ => Err(CalculatorError::UnexpectedToken(self.current_token.kind())),
        }
    }

    /// `expr := term ((PLUS | MINUS) term)*`, combining left to right.
    ///
    /// Returns exactly what [`sp_expr`] says for the state the parser
    /// starts in.
    pub fn expr(&mut self) -> (r: Result<Value, CalculatorError>)
        requires
            old(self).wf(),
        ensures
            final(self).text() == old(self).text(),
            (match sp_expr(old(self).text(), old(self).current_token, old(self).pos()) {
                Ok((rv, c2, i2)) => match r {
                    Ok(v) => {
                        &&& v@ == rv
                        &&& v.wf()
                        &&& final(self).wf()
                        &&& final(self).current_token == c2
                        &&& final(self).pos() == i2
                        &&& final(self).paren_count == old(self).paren_count
                        &&& final(self).measure() < old(self).measure()
                    },
                    Err(_) => false,
                },
                Err(e) => r == Err::<Value, CalculatorError>(e),
            }),
        decreases old(self).measure(), 4int,
    {
        let ghost s = self.text();
        let ghost cur0 = self.current_token;
        let ghost pos0 = self.pos();
        let ghost m0 = state_measure(s, cur0, pos0);
        let ghost count0 = self.paren_count;
        let mut result: Value;
        match self.term() {
            Ok(v) => {
                result = v;
            },
            Err(e) => {
                return Err(e);
            },
        }
        while self.current_token.kind() == TokenKind::Plus || self.current_token.kind()
            == TokenKind::Minus
            invariant
                s == old(self).text(),
                cur0 == old(self).current_token,
                pos0 == old(self).pos(),
                m0 == old(self).measure(),
                count0 == old(self).paren_count,
                self.wf(),
                self.text() == s,
                self.paren_count == count0,
                result.wf(),
                self.measure() < m0,
                sp_expr(s, cur0, pos0) == sp_expr_rest(
                    s,
                    result@,
                    self.current_token,
                    self.pos(),
                ),
            decreases self.measure(),
        {
            let plus: bool = self.current_token.kind() == TokenKind::Plus;
            let op_kind: TokenKind = self.current_token.kind();
            match self.eat(op_kind) {
                Ok(()) => {},
                Err(e) => {
                    return Err(e);
                },
            }
            let v2: Value;
            match self.term() {
                Ok(v) => {
                    v2 = v;
                },
                Err(e) => {
                    return Err(e);
                },
            }
            let w: Value;
            let wres = if plus {
                result.checked_add(v2)
            } else {
                result.checked_sub(v2)
            };
            match wres {
                Ok(x) => {
                    w = x;
                },
                Err(e) => {
                    return Err(e);
                },
            }
            result = w;
        }
        Ok(result)
    }

    /// `term := factor ((MUL | DIV) factor)*`, combining left to right.
    ///
    /// Returns exactly what [`sp_term`] says for the state the parser
    /// starts in; in particular, division by a factor equal to zero fails
    /// before any quotient is formed.
    pub fn term(&mut self) -> (r: Result<Value, CalculatorError>)
        requires
            old(self).wf(),
        ensures
            final(self).text() == old(self).text(),
            (match sp_term(old(self).text(), old(self).current_token, old(self).pos()) {
                Ok((rv, c2, i2)) => match r {
                    Ok(v) => {
                        &&& v@ == rv
                        &&& v.wf()
                        &&& final(self).wf()
                        &&& final(self).current_token == c2
                        &&& final(self).pos() == i2
                        &&& final(self).paren_count == old(self).paren_count
                        &&& final(self).measure() < old(self).measure()
                    },
                    Err(_) => false,
                },
                Err(e) => r == Err::<Value, CalculatorError>(e),
            }),
        decreases old(self).measure(), 2int,
    {
        let ghost s = self.text();
        let ghost cur0 = self.current_token;
        let ghost pos0 = self.pos();
        let ghost m0 = state_measure(s, cur0, pos0);
        let ghost count0 = self.paren_count;
        let mut result: Value;
        match self.factor() {
            Ok(v) => {
                result = v;
            },
            Err(e) => {
                return Err(e);
            },
        }
        while self.current_token.kind() == TokenKind::Multiply || self.current_token.kind()
            == TokenKind::Divide
            invariant
                s == old(self).text(),
                cur0 == old(self).current_token,
                pos0 == old(self).pos(),
                m0 == old(self).measure(),
                count0 == old(self).paren_count,
                self.wf(),
                self.text() == s,
                self.paren_count == count0,
                result.wf(),
                self.measure() < m0,
                sp_term(s, cur0, pos0) == sp_term_rest(
                    s,
                    result@,
                    self.current_token,
                    self.pos(),
                ),
            decreases self.measure(),
        {
            let mul: bool = self.current_token.kind() == TokenKind::Multiply;
            let op_kind: TokenKind = self.current_token.kind();
            match self.eat(op_kind) {
                Ok(()) => {},
                Err(e) => {
                    return Err(e);
                },
            }
            let v2: Value;
            match self.factor() {
                Ok(v) => {
                    v2 = v;
                },
                Err(e) => {
                    return Err(e);
                },
            }
            if !mul && v2.is_zero() {
                return Err(CalculatorError::DivisionByZero);
            }
            let w: Value;
            let wres = if mul {
                result.checked_mul(v2)
            } else {
                result.checked_div(v2)
            };
            match wres {
                Ok(x) => {
                    w = x;
                },
                Err(e) => {
                    return Err(e);
                },
            }
            result = w;
        }
        Ok(result)
    }

    /// The top-level parse: one `expr` that must consume the whole input.
    ///
    /// A trailing token is a syntax error; the balance check on the
    /// parenthesis counter is a defensive guard — `factor` pairs every
    /// opening parenthesis with its close before returning, and the proof
    /// shows the counter is zero here, so the guard cannot fire.
    pub fn parse(&mut self) -> (r: Result<Value, CalculatorError>)
        requires
            old(self).wf(),
            old(self).paren_count == 0,
        ensures
            (match sp_parse(old(self).text(), old(self).current_token, old(self).pos()) {
                Ok(rv) => match r {
                    Ok(v) => v@ == rv && v.wf(),
                    Err(_) => false,
                },
                Err(e) => r == Err::<Value, CalculatorError>(e),
            }),
    {
        match self.expr() {
            Ok(v) => {
                match self.current_token {
                    Token::EndOfInput => {
                        if self.paren_count != 0 {
                            Err(CalculatorError::UnbalancedParentheses)
                        } else {
                            Ok(v)
                        }
                    },
                    _ => Err(
                        CalculatorError::SyntaxError(
                            TokenKind::EndOfInput,
                            self.current_token.kind(),
                        ),
                    ),
                }
            },
            Err(e) => Err(e),
        }
    }
}

} // verus!
