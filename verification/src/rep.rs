//! The expression language of the arithmetic evaluator: its syntax, its
//! values, and the specification of evaluation for the arithmetic fragment.

use vstd::prelude::*;

use crate::arith::trunc_div;

verus! {

/// An expression.
#[derive(Debug, PartialEq)]
pub enum Expr {
    // introductions (values)
    Num(i128),
    Bool(bool),
    Let { identifier: String, binding: Box<Expr>, body: Box<Expr> },
    Lambda { f_param: String, body: Box<Expr> },
    // eliminations (operations)
    Binary { op: Op, l: Box<Expr>, r: Box<Expr> },
    If { cond: Box<Expr>, thn: Box<Expr>, els: Box<Expr> },
    Var(String),
    LambdaApp { a_param: Box<Expr>, lambda: Box<Expr> },
}

/// A value an expression can evaluate to.
#[derive(Debug, PartialEq)]
pub enum Val {
    Num(i128),
    Bool(bool),
    Lam { param: String, body: Expr },
}

/// A binary arithmetic operator.
#[derive(Clone, Copy, PartialEq, Eq, Structural, Debug)]
pub enum Op {
    Add,
    Subtract,
    Multiply,
    Divide,
}

/// A statement: this fragment of the language only returns.
#[derive(Debug, PartialEq)]
pub enum Statement {
    Return(Expr),
}

/// The body of `main`: a single statement.
#[derive(Debug, PartialEq)]
pub struct MainFunction {
    pub statement: Statement,
}

/// A whole program.
#[derive(Debug, PartialEq)]
pub struct Program {
    pub main_function: MainFunction,
}

/// The expression is built from integer literals and binary operators alone.
pub open spec fn is_arith(e: Expr) -> bool
    decreases e,
{
    match e {
        Expr::Num(_) => true,
        Expr::Binary { l, r, .. } => is_arith(*l) && is_arith(*r),
        _ => false,
    }
}

/// The mathematical value of an arithmetic expression, with division
/// truncating toward zero.
pub open spec fn arith_val(e: Expr) -> int
    decreases e,
{
    match e {
        Expr::Num(n) => n as int,
        Expr::Binary { op, l, r } => {
            let a = arith_val(*l);
            let b = arith_val(*r);
            match op {
                Op::Add => a + b,
                Op::Subtract => a - b,
                Op::Multiply => a * b,
                Op::Divide => trunc_div(a, b),
            }
        },
        _ => 0,
    }
}

/// No division in the expression has a zero divisor.
pub open spec fn div_ok(e: Expr) -> bool
    decreases e,
{
    match e {
        Expr::Binary { op, l, r } => div_ok(*l) && div_ok(*r) && (op == Op::Divide
            ==> arith_val(*r) != 0),
        _ => true,
    }
}

/// Every subexpression's value fits in an `i128`.
pub open spec fn in_bounds(e: Expr) -> bool
    decreases e,
{
    match e {
        Expr::Binary { l, r, .. } => in_bounds(*l) && in_bounds(*r) && i128::MIN <= arith_val(e)
            <= i128::MAX,
        _ => true,
    }
}

/// The expression evaluates without fault on the host: arithmetic shape, no
/// zero divisor, and every intermediate value in `i128` range.
pub open spec fn arith_ok(e: Expr) -> bool {
    is_arith(e) && div_ok(e) && in_bounds(e)
}

} // verus!
