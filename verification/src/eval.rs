//! The arithmetic evaluator: computes the value a program returns.

use std::collections::HashMap;

use vstd::prelude::*;

use crate::arith::trunc_div;
use crate::arith::trunc_div_i128;
use crate::rep::Expr;
use crate::rep::Op;
use crate::rep::Program;
use crate::rep::Statement;
use crate::rep::Val;
use crate::rep::arith_ok;
use crate::rep::arith_val;

verus! {

/// The environment: names bound to values.  The arithmetic fragment binds
/// none, but evaluation threads it through for the forms that will.
pub type Env = HashMap<String, Val>;

/// Evaluates the expression a program returns.
pub fn eval_program(p: Program) -> (r: Val)
    requires
        match p.main_function.statement {
            Statement::Return(e) => arith_ok(e),
        },
    ensures
        r == (match p.main_function.statement {
            Statement::Return(e) => Val::Num(arith_val(e) as i128),
        }),
{
    match p.main_function.statement {
        Statement::Return(e) => eval_expr(e, &mut HashMap::new()),
    }
}

/// Evaluates one expression under an environment, which the arithmetic
/// fragment leaves untouched.
pub fn eval_expr(e: Expr, nv: &mut Env) -> (r: Val)
    requires
        arith_ok(e),
    ensures
        r == Val::Num(arith_val(e) as i128),
        *final(nv) == *old(nv),
    decreases e,
{
    match e {
        Expr::Num(n) => Val::Num(n),
        Expr::Binary { op, l, r } => {
            proof {
                assert(arith_ok(*l));
                assert(arith_ok(*r));
                assert(i128::MIN <= arith_val(e) <= i128::MAX);
            }
            match op {
                Op::Add => crate::eval::plus(eval_expr(*l, nv), eval_expr(*r, nv)),
                Op::Subtract => crate::eval::sub(eval_expr(*l, nv), eval_expr(*r, nv)),
                Op::Multiply => crate::eval::mult(eval_expr(*l, nv), eval_expr(*r, nv)),
                Op::Divide => crate::eval::div(eval_expr(*l, nv), eval_expr(*r, nv)),
            }
        },
        _ => unreached(),
    }
}

/// Adds two numbers.
pub fn plus(lv: Val, rv: Val) -> (r: Val)
    requires
        lv matches Val::Num(l) && rv matches Val::Num(v) && i128::MIN <= l + v <= i128::MAX,
    ensures
        r == (match (lv, rv) {
            (Val::Num(l), Val::Num(v)) => Val::Num((l + v) as i128),
            _ => lv,
        }),
{
    match (lv, rv) {
        (Val::Num(l), Val::Num(v)) => Val::Num(l + v),
        _ => unreached(),
    }
}

/// Subtracts the right number from the left.
pub fn sub(lv: Val, rv: Val) -> (r: Val)
    requires
        lv matches Val::Num(l) && rv matches Val::Num(v) && i128::MIN <= l - v <= i128::MAX,
    ensures
        r == (match (lv, rv) {
            (Val::Num(l), Val::Num(v)) => Val::Num((l - v) as i128),
            _ => lv,
        }),
{
    match (lv, rv) {
        (Val::Num(l), Val::Num(v)) => Val::Num(l - v),
        _ => unreached(),
    }
}

/// Multiplies two numbers.
pub fn mult(lv: Val, rv: Val) -> (r: Val)
    requires
        lv matches Val::Num(l) && rv matches Val::Num(v) && i128::MIN <= l * v <= i128::MAX,
    ensures
        r == (match (lv, rv) {
            (Val::Num(l), Val::Num(v)) => Val::Num((l * v) as i128),
            _ => lv,
        }),
{
    match (lv, rv) {
        (Val::Num(l), Val::Num(v)) => Val::Num(l * v),
        _ => unreached(),
    }
}

/// Divides the left number by the right, truncating toward zero.
pub fn div(lv: Val, rv: Val) -> (r: Val)
    requires
        lv matches Val::Num(l) && rv matches Val::Num(v) && v != 0 && i128::MIN <= trunc_div(
            l as int,
            v as int,
        ) <= i128::MAX,
    ensures
        r == (match (lv, rv) {
            (Val::Num(l), Val::Num(v)) => Val::Num(trunc_div(l as int, v as int) as i128),
            _ => lv,
        }),
{
    match (lv, rv) {
        (Val::Num(l), Val::Num(v)) => Val::Num(trunc_div_i128(l, v)),
        _ => unreached(),
    }
}

} // verus!
