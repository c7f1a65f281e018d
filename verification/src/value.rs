//! Exact rational numbers, the values the evaluator computes with.
//!
//! A decimal literal such as `1.25` is an exact rational (`125/100`), and the
//! four operators keep results exact, so the evaluator works on fractions of
//! machine integers instead of approximating. The mathematical model is
//! [`Rat`], a fraction of unbounded integers with a positive denominator; the
//! executable [`Value`] holds the same fraction in two `i64` fields. Every
//! operation either returns the exact mathematical result or reports
//! [`CalculatorError::Overflow`] precisely when that result has no `i64`
//! representation.

use vstd::prelude::*;
use crate::error::CalculatorError;

verus! {

/// A fraction of unbounded integers. Meaningful when `den > 0`; values are
/// not kept reduced, so `10/10` and `1/1` are distinct representatives of
/// the same rational.
pub ghost struct Rat {
    pub num: int,
    pub den: int,
}

/// A well-formed fraction has a positive denominator.
pub open spec fn rat_wf(r: Rat) -> bool {
    0 < r.den
}

/// Whether both components of the fraction fit the executable
/// representation: the numerator in `i64`, the denominator positive in `i64`.
pub open spec fn in_bounds(r: Rat) -> bool {
    &&& i64::MIN <= r.num <= i64::MAX
    &&& 0 < r.den <= i64::MAX
}

/// The rational holding the integer `n`.
pub open spec fn rat_int(n: int) -> Rat {
    Rat { num: n, den: 1 }
}

/// Exact negation.
pub open spec fn rat_neg(a: Rat) -> Rat {
    Rat { num: -a.num, den: a.den }
}

/// Exact sum: `a/b + c/d == (a*d + c*b) / (b*d)`.
pub open spec fn rat_add(a: Rat, b: Rat) -> Rat {
    Rat { num: a.num * b.den + b.num * a.den, den: a.den * b.den }
}

/// Exact difference: `a/b - c/d == (a*d - c*b) / (b*d)`.
pub open spec fn rat_sub(a: Rat, b: Rat) -> Rat {
    Rat { num: a.num * b.den - b.num * a.den, den: a.den * b.den }
}

/// Exact product.
pub open spec fn rat_mul(a: Rat, b: Rat) -> Rat {
    Rat { num: a.num * b.num, den: a.den * b.den }
}

/// Exact quotient, the sign moved to the numerator so that the denominator
/// stays positive. Meaningful when `b.num != 0`.
pub open spec fn rat_div(a: Rat, b: Rat) -> Rat {
    if b.num < 0 {
        Rat { num: -(a.num * b.den), den: -(a.den * b.num) }
    } else {
        Rat { num: a.num * b.den, den: a.den * b.num }
    }
}

/// A product of values bounded in magnitude is bounded by the product of the
/// bounds.
proof fn lemma_mul_abs_bound(a: int, b: int, m: int, n: int)
    by (nonlinear_arith)
    requires
        -m <= a <= m,
        -n <= b <= n,
    ensures
        -(m * n) <= a * b <= m * n,
{
}

/// A product of positive values is positive.
proof fn lemma_mul_pos(a: int, b: int)
    by (nonlinear_arith)
    requires
        0 < a,
        0 < b,
    ensures
        0 < a * b,
{
}

/// Negating one operand negates the product.
proof fn lemma_mul_neg_right(a: int, b: int)
    by (nonlinear_arith)
    ensures
        a * (-b) == -(a * b),
{
}

/// An exact rational number, a fraction of two `i64` components.
///
/// The invariant [`Value::wf`] keeps the denominator positive. Fractions are
/// not reduced: `10 / 2 / 5` evaluates to the representative `10/10`.
#[derive(Debug, Clone, Copy, PartialEq, Eq, Structural)]
pub struct Value {
    pub num: i64,
    pub den: i64,
}

impl View for Value {
    type V = Rat;

    open spec fn view(&self) -> Rat {
        Rat { num: self.num as int, den: self.den as int }
    }
}

impl Value {
    /// A well-formed value has a positive denominator.
    pub open spec fn wf(self) -> bool {
        rat_wf(self@)
    }

    /// The value holding the integer `n`.
    pub fn from_int(n: i64) -> (v: Value)
        ensures
            v@ == rat_int(n as int),
            v.wf(),
            in_bounds(v@),
    {
        Value { num: n, den: 1 }
    }

    /// Packs an exact fraction into `i64` components, or reports overflow.
    fn make(n: i128, d: i128) -> (r: Result<Value, CalculatorError>)
        requires
            0 < d,
        ensures
            (match r {
                Ok(v) => in_bounds(Rat { num: n as int, den: d as int }) && v@ == (Rat {
                    num: n as int,
                    den: d as int,
                }),
                Err(e) => e == CalculatorError::Overflow && !in_bounds(
                    Rat { num: n as int, den: d as int },
                ),
            }),
    {
        if n < i64::MIN as i128 || n > i64::MAX as i128 || d > i64::MAX as i128 {
            Err(CalculatorError::Overflow)
        } else {
            Ok(Value { num: n as i64, den: d as i64 })
        }
    }

    /// Whether this value is the rational zero.
    pub fn is_zero(&self) -> (r: bool)
        ensures
            r == (self@.num == 0),
    {
        self.num == 0
    }

    /// Whether this value equals the integer `n`, as a rational.
    pub fn eq_int(&self, n: i64) -> (r: bool)
        requires
            self.wf(),
        ensures
            r == (self@.num == n as int * self@.den),
    {
        proof {
            lemma_mul_abs_bound(
                n as int,
                self.den as int,
                0x8000_0000_0000_0000,
                0x7fff_ffff_ffff_ffff,
            );
        }
        self.num as i128 == n as i128 * self.den as i128
    }

    /// Exact sum, or overflow exactly when the sum has no representation.
    pub fn checked_add(self, rhs: Value) -> (r: Result<Value, CalculatorError>)
        requires
            self.wf(),
            rhs.wf(),
        ensures
            (match r {
                Ok(v) => v@ == rat_add(self@, rhs@) && in_bounds(rat_add(self@, rhs@)),
                Err(e) => e == CalculatorError::Overflow && !in_bounds(rat_add(self@, rhs@)),
            }),
    {
        let n1: i128 = self.num as i128;
        let d1: i128 = self.den as i128;
        let n2: i128 = rhs.num as i128;
        let d2: i128 = rhs.den as i128;
        proof {
            lemma_mul_abs_bound(n1 as int, d2 as int, 0x8000_0000_0000_0000, 0x7fff_ffff_ffff_ffff);
            lemma_mul_abs_bound(n2 as int, d1 as int, 0x8000_0000_0000_0000, 0x7fff_ffff_ffff_ffff);
            lemma_mul_abs_bound(d1 as int, d2 as int, 0x7fff_ffff_ffff_ffff, 0x7fff_ffff_ffff_ffff);
            lemma_mul_pos(d1 as int, d2 as int);
        }
        let n: i128 = n1 * d2 + n2 * d1;
        let d: i128 = d1 * d2;
        Self::make(n, d)
    }

    /// Exact difference, or overflow exactly when it has no representation.
    pub fn checked_sub(self, rhs: Value) -> (r: Result<Value, CalculatorError>)
        requires
            self.wf(),
            rhs.wf(),
        ensures
            (match r {
                Ok(v) => v@ == rat_sub(self@, rhs@) && in_bounds(rat_sub(self@, rhs@)),
                Err(e) => e == CalculatorError::Overflow && !in_bounds(rat_sub(self@, rhs@)),
            }),
    {
        let n1: i128 = self.num as i128;
        let d1: i128 = self.den as i128;
        let n2: i128 = rhs.num as i128;
        let d2: i128 = rhs.den as i128;
        proof {
            lemma_mul_abs_bound(n1 as int, d2 as int, 0x8000_0000_0000_0000, 0x7fff_ffff_ffff_ffff);
            lemma_mul_abs_bound(n2 as int, d1 as int, 0x8000_0000_0000_0000, 0x7fff_ffff_ffff_ffff);
            lemma_mul_abs_bound(d1 as int, d2 as int, 0x7fff_ffff_ffff_ffff, 0x7fff_ffff_ffff_ffff);
            lemma_mul_pos(d1 as int, d2 as int);
        }
        let n: i128 = n1 * d2 - n2 * d1;
        let d: i128 = d1 * d2;
        Self::make(n, d)
    }

    /// Exact product, or overflow exactly when it has no representation.
    pub fn checked_mul(self, rhs: Value) -> (r: Result<Value, CalculatorError>)
        requires
            self.wf(),
            rhs.wf(),
        ensures
            (match r {
                Ok(v) => v@ == rat_mul(self@, rhs@) && in_bounds(rat_mul(self@, rhs@)),
                Err(e) => e == CalculatorError::Overflow && !in_bounds(rat_mul(self@, rhs@)),
            }),
    {
        let n1: i128 = self.num as i128;
        let d1: i128 = self.den as i128;
        let n2: i128 = rhs.num as i128;
        let d2: i128 = rhs.den as i128;
        proof {
            lemma_mul_abs_bound(n1 as int, n2 as int, 0x8000_0000_0000_0000, 0x8000_0000_0000_0000);
            lemma_mul_abs_bound(d1 as int, d2 as int, 0x7fff_ffff_ffff_ffff, 0x7fff_ffff_ffff_ffff);
            lemma_mul_pos(d1 as int, d2 as int);
        }
        let n: i128 = n1 * n2;
        let d: i128 = d1 * d2;
        Self::make(n, d)
    }

    /// Exact quotient by a nonzero value, or overflow exactly when it has no
    /// representation. Callers rule division by zero out beforehand.
    pub fn checked_div(self, rhs: Value) -> (r: Result<Value, CalculatorError>)
        requires
            self.wf(),
            rhs.wf(),
            rhs@.num != 0,
        ensures
            (match r {
                Ok(v) => v@ == rat_div(self@, rhs@) && in_bounds(rat_div(self@, rhs@)),
                Err(e) => e == CalculatorError::Overflow && !in_bounds(rat_div(self@, rhs@)),
            }),
    {
        let n1: i128 = self.num as i128;
        let d1: i128 = self.den as i128;
        let n2: i128 = rhs.num as i128;
        let d2: i128 = rhs.den as i128;
        proof {
            lemma_mul_abs_bound(n1 as int, d2 as int, 0x8000_0000_0000_0000, 0x7fff_ffff_ffff_ffff);
            lemma_mul_abs_bound(d1 as int, n2 as int, 0x7fff_ffff_ffff_ffff, 0x8000_0000_0000_0000);
        }
        let n: i128 = n1 * d2;
        let d: i128 = d1 * n2;
        if rhs.num < 0 {
            proof {
                lemma_mul_pos(d1 as int, -(n2 as int));
                lemma_mul_neg_right(d1 as int, n2 as int);
            }
            Self::make(-n, -d)
        } else {
            proof {
                lemma_mul_pos(d1 as int, n2 as int);
            }
            Self::make(n, d)
        }
    }

    /// Exact negation, or overflow for the one unrepresentable case.
    pub fn checked_neg(self) -> (r: Result<Value, CalculatorError>)
        requires
            self.wf(),
        ensures
            (match r {
                Ok(v) => v@ == rat_neg(self@) && in_bounds(rat_neg(self@)),
                Err(e) => e == CalculatorError::Overflow && !in_bounds(rat_neg(self@)),
            }),
    {
        if self.num == i64::MIN {
            Err(CalculatorError::Overflow)
        } else {
            Ok(Value { num: -self.num, den: self.den })
        }
    }
}

} // verus!
