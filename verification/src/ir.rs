//! The intermediate representation of the literal-only code generator.

use vstd::prelude::*;

verus! {

/// An expression.
pub enum Expr {
    LiteralNum(i128),
    Binary { op: Op, l: Box<Expr>, r: Box<Expr> },
    If { cond: Box<Expr>, thn: Box<Expr>, els: Box<Expr> },
}

/// A binary arithmetic operator.
#[derive(Clone, Copy, PartialEq, Eq, Structural, Debug)]
pub enum Op {
    Add,
    Subtract,
    Multiply,
    Divide,
}

/// A statement: this fragment of the language only returns.
pub enum Statement {
    Return(Expr),
}

/// The body of `main`: a single statement.
pub struct MainFunction {
    pub statement: Statement,
}

/// A whole program.
pub struct Program {
    pub main_function: MainFunction,
}

} // verus!
