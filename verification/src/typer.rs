//! The type judgment: a program is well-typed when every expression reduces
//! to an integer-compatible form, here the arithmetic fragment.

use vstd::prelude::*;

use crate::rep::Expr;
use crate::rep::Program;
use crate::rep::Statement;
use crate::rep::is_arith;

verus! {

/// Judges a whole program: its returned expression must be arithmetic.
pub fn type_program(p: &Program) -> (r: bool)
    ensures
        r == (match p.main_function.statement {
            Statement::Return(e) => is_arith(e),
        }),
{
    match &p.main_function.statement {
        Statement::Return(e) => type_expr(e),
    }
}

/// Judges one expression: integer literals and binary nodes over them are
/// integer-compatible; every other form is not.
pub fn type_expr(e: &Expr) -> (r: bool)
    ensures
        r == is_arith(*e),
    decreases *e,
{
    match e {
        Expr::Num(_) => true,
        Expr::Binary { l, r, .. } => type_expr(l) && type_expr(r),
        _ => false,
    }
}

} // verus!
