use std::collections::HashMap;

use din::eval::{div, eval_expr, eval_program, mult, plus, sub};
use din::rep::{Expr, MainFunction, Op, Program, Statement, Val};

fn ret(e: Expr) -> Program {
    Program { main_function: MainFunction { statement: Statement::Return(e) } }
}

fn bin(op: Op, l: Expr, r: Expr) -> Expr {
    Expr::Binary { op, l: Box::new(l), r: Box::new(r) }
}

#[test]
fn eval_literal() {
    assert_eq!(eval_program(ret(Expr::Num(8))), Val::Num(8));
}

#[test]
fn eval_addition() {
    assert_eq!(
        eval_program(ret(bin(Op::Add, Expr::Num(9), Expr::Num(10)))),
        Val::Num(19)
    );
}

#[test]
fn eval_addition_chain() {
    let e = bin(Op::Add, bin(Op::Add, Expr::Num(9), Expr::Num(10)), Expr::Num(11));
    assert_eq!(eval_program(ret(e)), Val::Num(30));
}

#[test]
fn eval_subtraction() {
    assert_eq!(
        eval_program(ret(bin(Op::Subtract, Expr::Num(88), Expr::Num(32)))),
        Val::Num(56)
    );
}

#[test]
fn eval_multiplication() {
    assert_eq!(
        eval_program(ret(bin(Op::Multiply, Expr::Num(9), Expr::Num(10)))),
        Val::Num(90)
    );
}

#[test]
fn eval_division_truncates() {
    assert_eq!(
        eval_program(ret(bin(Op::Divide, Expr::Num(100), Expr::Num(9)))),
        Val::Num(11)
    );
    assert_eq!(
        eval_program(ret(bin(Op::Divide, Expr::Num(-7), Expr::Num(2)))),
        Val::Num(-3)
    );
    assert_eq!(
        eval_program(ret(bin(Op::Divide, Expr::Num(7), Expr::Num(-2)))),
        Val::Num(-3)
    );
    assert_eq!(
        eval_program(ret(bin(Op::Divide, Expr::Num(i128::MIN), Expr::Num(2)))),
        Val::Num(i128::MIN / 2)
    );
}

#[test]
fn eval_mixed_precedence_tree() {
    // 2 + 3 * 5 - 8 / 3, associated as the parser would.
    let e = bin(
        Op::Subtract,
        bin(Op::Add, Expr::Num(2), bin(Op::Multiply, Expr::Num(3), Expr::Num(5))),
        bin(Op::Divide, Expr::Num(8), Expr::Num(3)),
    );
    assert_eq!(eval_program(ret(e)), Val::Num(15));
}

#[test]
fn eval_expr_leaves_environment() {
    let mut nv = HashMap::new();
    nv.insert(String::from("a"), Val::Num(1));
    let out = eval_expr(bin(Op::Add, Expr::Num(2), Expr::Num(3)), &mut nv);
    assert_eq!(out, Val::Num(5));
    assert_eq!(nv.get("a"), Some(&Val::Num(1)));
}

#[test]
fn eval_operator_helpers() {
    assert_eq!(plus(Val::Num(2), Val::Num(3)), Val::Num(5));
    assert_eq!(sub(Val::Num(2), Val::Num(3)), Val::Num(-1));
    assert_eq!(mult(Val::Num(2), Val::Num(3)), Val::Num(6));
    assert_eq!(div(Val::Num(7), Val::Num(3)), Val::Num(2));
    assert_eq!(div(Val::Num(-9), Val::Num(-2)), Val::Num(4));
}
