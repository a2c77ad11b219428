use din::gen::{gen as gen_ir, gen_expr as gen_ir_expr, gen_rv32i as gen_ir_rv32i};
use din::ir;
use din::register_generator::{gen as gen_reg, gen_rv32i as gen_reg_rv32i};
use din::stack_generator::OpCode;

fn ir_ret_lit(n: i128) -> ir::Program {
    ir::Program {
        main_function: ir::MainFunction {
            statement: ir::Statement::Return(ir::Expr::LiteralNum(n)),
        },
    }
}

#[test]
fn ir_generator_emits_literal_return() {
    let out = gen_ir(ir_ret_lit(8), "rv32i");
    assert_eq!(
        out,
        vec![
            String::from("  .global main"),
            String::from("main:"),
            String::from("  li a0 8"),
            String::from("  ret"),
        ]
    );
}

#[test]
fn ir_generator_expr_line() {
    assert_eq!(gen_ir_expr(ir::Expr::LiteralNum(42)), "  li a0 42");
    assert_eq!(gen_ir_expr(ir::Expr::LiteralNum(-3)), "  li a0 -3");
}

#[test]
fn ir_generator_rv32i_matches_front_door() {
    assert_eq!(gen_ir_rv32i(ir_ret_lit(9)), gen_ir(ir_ret_lit(9), "rv32i"));
}

#[test]
fn register_generator_emits_skeleton() {
    let code = vec![OpCode::PUSH(8)];
    let out = gen_reg(code, "rv32i");
    assert_eq!(
        out,
        vec![String::from("  .global main"), String::from("main:"), String::from("  ret")]
    );
}

#[test]
fn register_generator_rv32i_ignores_code() {
    assert_eq!(gen_reg_rv32i(vec![]), gen_reg_rv32i(vec![OpCode::ADD, OpCode::PUSH(1)]));
}
