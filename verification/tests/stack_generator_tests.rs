use din::rep::{Expr, MainFunction, Op, Program, Statement};
use din::stack_generator::{gen, gen_expr, OpCode};

fn ret(e: Expr) -> Program {
    Program { main_function: MainFunction { statement: Statement::Return(e) } }
}

fn bin(op: Op, l: Expr, r: Expr) -> Expr {
    Expr::Binary { op, l: Box::new(l), r: Box::new(r) }
}

#[test]
fn stack_code_of_literal() {
    assert_eq!(gen(ret(Expr::Num(8))), vec![OpCode::PUSH(8)]);
}

#[test]
fn stack_code_of_addition() {
    assert_eq!(
        gen(ret(bin(Op::Add, Expr::Num(9), Expr::Num(10)))),
        vec![OpCode::PUSH(9), OpCode::PUSH(10), OpCode::ADD]
    );
}

#[test]
fn stack_code_of_addition_chain() {
    let e = bin(Op::Add, bin(Op::Add, Expr::Num(9), Expr::Num(10)), Expr::Num(11));
    assert_eq!(
        gen(ret(e)),
        vec![
            OpCode::PUSH(9),
            OpCode::PUSH(10),
            OpCode::ADD,
            OpCode::PUSH(11),
            OpCode::ADD,
        ]
    );
}

#[test]
fn stack_code_is_postfix() {
    let e = bin(
        Op::Subtract,
        bin(Op::Multiply, Expr::Num(2), Expr::Num(3)),
        bin(Op::Divide, Expr::Num(8), Expr::Num(4)),
    );
    assert_eq!(
        gen_expr(&e),
        vec![
            OpCode::PUSH(2),
            OpCode::PUSH(3),
            OpCode::MULT,
            OpCode::PUSH(8),
            OpCode::PUSH(4),
            OpCode::DIV,
            OpCode::SUB,
        ]
    );
}
