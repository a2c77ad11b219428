//! The earliest code generator: lowers a program that returns a single
//! integer literal to four lines of RV32I text.

use vstd::prelude::*;

use crate::digits::int_str;
use crate::generator::lines_model;
use crate::ir::Expr;
use crate::ir::Program;
use crate::ir::Statement;

verus! {

/// The backends this generator knows of.  Only `Rv32i` is implemented.
pub enum Target {
    Rv32i,
    Llvm,
}

/// The program returns a bare integer literal.
pub open spec fn returns_literal(p: Program) -> bool {
    match p.main_function.statement {
        Statement::Return(e) => e matches Expr::LiteralNum(_),
    }
}

/// The literal a program returns.
pub open spec fn literal_of(p: Program) -> int {
    match p.main_function.statement {
        Statement::Return(e) => match e {
            Expr::LiteralNum(n) => n as int,
            _ => 0,
        },
    }
}

/// The generator's whole output for a program.
pub open spec fn spec_output(p: Program) -> Seq<Seq<char>> {
    seq!["  .global main"@, "main:"@, "  li a0 "@ + int_str(literal_of(p)), "  ret"@]
}

/// Generates assembly for the one implemented target.
pub fn gen(ast: Program, t: &str) -> (r: Vec<String>)
    requires
        returns_literal(ast),
    ensures
        lines_model(r@) == spec_output(ast),
{
    let target = Target::Rv32i;
    match target {
        Target::Rv32i => gen_rv32i(ast),
        Target::Llvm => unreached(),
    }
}

/// Generates the RV32I text: the `main` symbol, the literal loaded into the
/// return register, and a return.
pub fn gen_rv32i(tree: Program) -> (r: Vec<String>)
    requires
        returns_literal(tree),
    ensures
        lines_model(r@) == spec_output(tree),
{
    let ghost p = tree;
    let expr_mc = match tree.main_function.statement {
        Statement::Return(e) => gen_expr(e),
    };
    let mut output: Vec<String> = Vec::new();
    output.push(String::from_str("  .global main"));
    output.push(String::from_str("main:"));
    output.push(expr_mc);
    output.push(String::from_str("  ret"));
    proof {
        assert(lines_model(output@) =~= spec_output(p));
    }
    output
}

/// The single line that loads a literal into the return register.
pub fn gen_expr(e: Expr) -> (r: String)
    requires
        e matches Expr::LiteralNum(_),
    ensures
        r@ == (match e {
            Expr::LiteralNum(n) => "  li a0 "@ + int_str(n as int),
            _ => Seq::<char>::empty(),
        }),
{
    match e {
        Expr::LiteralNum(n) => {
            let r = String::from_str("  li a0 ").concat(
                crate::digits::i128_to_string(n).as_str(),
            );
            proof {
                assert(r@ =~= "  li a0 "@ + int_str(n as int));
            }
            r
        },
        _ => unreached(),
    }
}

} // verus!
