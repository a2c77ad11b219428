//! The expression language of the interpreter: syntax and values.

use vstd::prelude::*;

verus! {

/// An expression.
pub enum Expr {
    Num(i128),
    Bool(bool),
    Var(String),
    Binary { op: Op, l: Box<Expr>, r: Box<Expr> },
    If { cond: Box<Expr>, thn: Box<Expr>, els: Box<Expr> },
    Let { identifier: String, binding: Box<Expr>, body: Box<Expr> },
}

/// A value an expression can evaluate to.
#[derive(Debug, PartialEq)]
pub enum Val {
    Num(i128),
    Bool(bool),
}

/// A binary arithmetic operator.
#[derive(Clone, Copy, PartialEq, Eq, Structural, Debug)]
pub enum Op {
    Add,
    Subtract,
    Multiply,
    Divide,
}

} // verus!
