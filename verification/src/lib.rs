//! An arithmetic expression evaluator.
//!
//! The library turns a line of text holding decimal literals, the operators
//! `+ - * /`, and parentheses into an exact rational result, or into a typed
//! error. It is built as a three-stage pipeline: a lexer that produces one
//! token on demand, a recursive-descent parser that evaluates the expression
//! while parsing it, and a small driver that rejects empty input and runs the
//! parse. Every stage is verified against a mathematical model of the same
//! pipeline: `grammar::spec_eval` says exactly what each input evaluates to,
//! and `calculate` is proved to return precisely that.

use vstd::prelude::*;
use vstd::string::{StrSliceExecFns, StringExecFns};

pub mod error;
pub mod grammar;
pub mod lexer;
pub mod parser;
pub mod scan;
pub mod token;
pub mod value;

use crate::error::CalculatorError;
use crate::grammar::{all_whitespace, sp_parse, spec_eval};
use crate::lexer::Lexer;
use crate::parser::Parser;
use crate::scan::{is_space_char, scan_token};
use crate::token::Token;
use crate::value::{Rat, Value};

verus! {

/// Whether an executable outcome matches a mathematical one: the same
/// error, or a well-formed value holding exactly the model's fraction.
pub open spec fn eval_matches(
    r: Result<Value, CalculatorError>,
    m: Result<Rat, CalculatorError>,
) -> bool {
    match (r, m) {
        (Ok(v), Ok(q)) => v@ == q && v.wf(),
        (Err(e1), Err(e2)) => e1 == e2,
        _ => false,
    }
}

/// The driver: validates that the input is not empty, then owns the parser
/// built over it.
pub struct Interpreter {
    pub parser: Parser,
}

impl Interpreter {
    /// A ready interpreter holds a well-formed parser with no parenthesis
    /// open yet.
    pub open spec fn wf(self) -> bool {
        &&& self.parser.wf()
        &&& self.parser.paren_count == 0
    }

    /// The input text under evaluation.
    pub open spec fn text(self) -> Seq<char> {
        self.parser.text()
    }

    /// Builds the pipeline over one line of input. Input that trims to
    /// nothing is rejected as an empty expression before any lexer exists;
    /// otherwise the parser pulls its first lookahead token, and a lexer
    /// failure on that token is the construction failure.
    pub fn new(text: String) -> (r: Result<Interpreter, CalculatorError>)
        ensures
            (match r {
                Ok(it) => {
                    &&& it.wf()
                    &&& !all_whitespace(text@)
                    &&& it.text() == text@
                    &&& (match scan_token(text@, 0) {
                        Ok((t, p)) => it.parser.current_token == t && it.parser.pos() == p,
                        Err(_) => false,
                    })
                },
                Err(e) => (if all_whitespace(text@) {
                    e == CalculatorError::EmptyExpression
                } else {
                    scan_token(text@, 0) == Err::<(Token, int), CalculatorError>(e)
                }),
            }),
    {
        let n: usize = text.as_str().unicode_len();
        let mut all_ws: bool = true;
        let mut i: usize = 0;
        while i < n
            invariant
                0 <= i <= n,
                n as int == text@.len(),
                all_ws == (forall|k: int| 0 <= k < i ==> is_space_char(#[trigger] text@[k])),
            decreases n - i,
        {
            let c: char = text.as_str().get_char(i);
            if !(c == ' ' || c == '\t' || c == '\n' || c == '\r') {
                all_ws = false;
            }
            i = i + 1;
        }
        if all_ws {
            return Err(CalculatorError::EmptyExpression);
        }
        let lexer = Lexer::new(text);
        match Parser::new(lexer) {
            Ok(p) => Ok(Interpreter { parser: p }),
            Err(e) => Err(e),
        }
    }

    /// Runs the top-level parse and hands its outcome through unchanged.
    pub fn interpret(&mut self) -> (r: Result<Value, CalculatorError>)
        requires
            old(self).wf(),
        ensures
            (match sp_parse(
                old(self).text(),
                old(self).parser.current_token,
                old(self).parser.pos(),
            ) {
                Ok(rv) => match r {
                    Ok(v) => v@ == rv && v.wf(),
                    Err(_) => false,
                },
                Err(e) => r == Err::<Value, CalculatorError>(e),
            }),
    {
        self.parser.parse()
    }
}

/// Evaluates one line of input and returns the exact rational value of the
/// expression, or the first error on the way.
///
/// The result is precisely what the mathematical model [`spec_eval`] names
/// for this text: for every well-formed expression over literals, `+ - * /`
/// and balanced parentheses, that is the value of standard infix evaluation
/// with `*` and `/` binding tighter than `+` and `-` and equal precedence
/// combined left to right, computed over exact rationals.
pub fn calculate(input: &str) -> (r: Result<Value, CalculatorError>)
    ensures
        eval_matches(r, spec_eval(input@)),
{
    let text: String = String::from_str(input);
    match Interpreter::new(text) {
        Ok(mut it) => it.interpret(),
        Err(e) => Err(e),
    }
}

/// Evaluation has no hidden state: the contract of [`calculate`] ties its
/// outcome to the input text alone, so any two outcomes that contract
/// allows for the same text — in particular those of two successive calls
/// on one string — are identical, value and error alike.
pub proof fn lemma_calculate_deterministic(
    r1: Result<Value, CalculatorError>,
    r2: Result<Value, CalculatorError>,
    s: Seq<char>,
)
    requires
        eval_matches(r1, spec_eval(s)),
        eval_matches(r2, spec_eval(s)),
    ensures
        r1 == r2,
{
    match (r1, r2) {
        (Ok(v1), Ok(v2)) => {
            assert(v1.num == v2.num);
            assert(v1.den == v2.den);
        },
        _ => {},
    }
}

} // verus!
