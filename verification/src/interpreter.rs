//! The expression interpreter: a strict evaluator for the arithmetic
//! fragment, with booleans as values and a placeholder conditional that
//! always yields zero.

use std::collections::HashMap;

use vstd::prelude::*;

use crate::arith::trunc_div;
use crate::arith::trunc_div_i128;
use crate::ast::Expr;
use crate::ast::Op;
use crate::ast::Val;

verus! {

/// The environment: names bound to values.  The supported fragment binds
/// none.
pub type Env = HashMap<String, Val>;

/// The expression evaluates to a number: literals, binary nodes, and the
/// placeholder conditional do; booleans and binders do not.
pub open spec fn yields_num(e: Expr) -> bool {
    match e {
        Expr::Num(_) => true,
        Expr::Binary { .. } => true,
        Expr::If { .. } => true,
        _ => false,
    }
}

/// The numeric value of a supported expression.  A conditional is a
/// placeholder: it evaluates to zero without looking at its branches.
pub open spec fn interp_val(e: Expr) -> int
    decreases e,
{
    match e {
        Expr::Num(n) => n as int,
        Expr::Binary { op, l, r } => {
            let a = interp_val(*l);
            let b = interp_val(*r);
            match op {
                Op::Add => a + b,
                Op::Subtract => a - b,
                Op::Multiply => a * b,
                Op::Divide => trunc_div(a, b),
            }
        },
        _ => 0,
    }
}

/// The interpreter can evaluate the expression without fault: every binary
/// node combines numeric operands, no divisor is zero, every value fits in
/// an `i128`, and no variables or binders occur.
pub open spec fn interp_ok(e: Expr) -> bool
    decreases e,
{
    match e {
        Expr::Num(_) => true,
        Expr::Bool(_) => true,
        Expr::If { .. } => true,
        Expr::Binary { op, l, r } => interp_ok(*l) && interp_ok(*r) && yields_num(*l)
            && yields_num(*r) && (op == Op::Divide ==> interp_val(*r) != 0) && i128::MIN
            <= interp_val(e) <= i128::MAX,
        _ => false,
    }
}

/// The value of a supported expression.
pub open spec fn spec_interp(e: Expr) -> Val {
    match e {
        Expr::Bool(b) => Val::Bool(b),
        _ => Val::Num(interp_val(e) as i128),
    }
}

/// The interpreter.
#[derive(Default)]
pub struct Interpreter {}

impl Interpreter {
    /// Evaluates an expression under an environment, which the supported
    /// fragment never consults.
    pub fn eval(&self, e: Expr, nv: Env) -> (r: Val)
        requires
            interp_ok(e),
        ensures
            r == spec_interp(e),
    {
        let _ = nv;
        self.eval_in(&e)
    }

    /// Evaluates an expression by structural recursion.
    fn eval_in(&self, e: &Expr) -> (r: Val)
        requires
            interp_ok(*e),
        ensures
            r == spec_interp(*e),
        decreases *e,
    {
        match e {
            Expr::Num(n) => Val::Num(*n),
            Expr::Bool(b) => Val::Bool(*b),
            Expr::Binary { op, l, r } => {
                proof {
                    assert(interp_ok(**l));
                    assert(interp_ok(**r));
                    assert(i128::MIN <= interp_val(*e) <= i128::MAX);
                }
                let lv = self.eval_in(l);
                let rv = self.eval_in(r);
                match op {
                    Op::Add => self.plus(lv, rv),
                    Op::Subtract => self.sub(lv, rv),
                    Op::Multiply => self.mult(lv, rv),
                    Op::Divide => self.div(lv, rv),
                }
            },
            Expr::If { .. } => Val::Num(0),
            _ => unreached(),
        }
    }

    /// Adds two numbers.
    pub fn plus(&self, lv: Val, rv: Val) -> (r: Val)
        requires
            lv matches Val::Num(a) && rv matches Val::Num(b) && i128::MIN <= a + b <= i128::MAX,
        ensures
            r == (match (lv, rv) {
                (Val::Num(a), Val::Num(b)) => Val::Num((a + b) as i128),
                _ => lv,
            }),
    {
        match (lv, rv) {
            (Val::Num(a), Val::Num(b)) => Val::Num(a + b),
            _ => unreached(),
        }
    }

    /// Subtracts the right number from the left.
    pub fn sub(&self, lv: Val, rv: Val) -> (r: Val)
        requires
            lv matches Val::Num(a) && rv matches Val::Num(b) && i128::MIN <= a - b <= i128::MAX,
        ensures
            r == (match (lv, rv) {
                (Val::Num(a), Val::Num(b)) => Val::Num((a - b) as i128),
                _ => lv,
            }),
    {
        match (lv, rv) {
            (Val::Num(a), Val::Num(b)) => Val::Num(a - b),
            _ => unreached(),
        }
    }

    /// Multiplies two numbers.
    pub fn mult(&self, lv: Val, rv: Val) -> (r: Val)
        requires
            lv matches Val::Num(a) && rv matches Val::Num(b) && i128::MIN <= a * b <= i128::MAX,
        ensures
            r == (match (lv, rv) {
                (Val::Num(a), Val::Num(b)) => Val::Num((a * b) as i128),
                _ => lv,
            }),
    {
        match (lv, rv) {
            (Val::Num(a), Val::Num(b)) => Val::Num(a * b),
            _ => unreached(),
        }
    }

    /// Divides the left number by the right, truncating toward zero.
    pub fn div(&self, lv: Val, rv: Val) -> (r: Val)
        requires
            lv matches Val::Num(a) && rv matches Val::Num(b) && b != 0 && i128::MIN <= trunc_div(
                a as int,
                b as int,
            ) <= i128::MAX,
        ensures
            r == (match (lv, rv) {
                (Val::Num(a), Val::Num(b)) => Val::Num(trunc_div(a as int, b as int) as i128),
                _ => lv,
            }),
    {
        match (lv, rv) {
            (Val::Num(a), Val::Num(b)) => Val::Num(trunc_div_i128(a, b)),
            _ => unreached(),
        }
    }
}

} // verus!
