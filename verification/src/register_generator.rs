//! The register back end of the stack-code pipeline: a placeholder that
//! emits an empty `main` for any stack program.

use vstd::prelude::*;

use crate::generator::lines_model;
use crate::stack_generator::OpCode;

verus! {

/// The backends this generator knows of.  Only `Rv32i` is implemented.
pub enum Target {
    Rv32i,
    Llvm,
}

/// Generates assembly for the one implemented target.
pub fn gen(stack_code: Vec<OpCode>, _t: &str) -> (r: Vec<String>)
    ensures
        lines_model(r@) == seq!["  .global main"@, "main:"@, "  ret"@],
{
    let target = Target::Rv32i;
    match target {
        Target::Rv32i => gen_rv32i(stack_code),
        Target::Llvm => unreached(),
    }
}

/// The fixed skeleton: the `main` symbol and a return.
pub fn gen_rv32i(stack_code: Vec<OpCode>) -> (r: Vec<String>)
    ensures
        lines_model(r@) == seq!["  .global main"@, "main:"@, "  ret"@],
{
    let _ = stack_code;
    let mut output: Vec<String> = Vec::new();
    output.push(String::from_str("  .global main"));
    output.push(String::from_str("main:"));
    output.push(String::from_str("  ret"));
    proof {
        assert(lines_model(output@) =~= seq!["  .global main"@, "main:"@, "  ret"@]);
    }
    output
}

} // verus!
