use din::rep::{Expr, MainFunction, Op, Program, Statement};
use din::typer::{type_expr, type_program};

#[test]
fn test() {
    let input = Expr::Binary {
        op: Op::Add,
        l: Box::new(Expr::Num(9)),
        r: Box::new(Expr::Num(10)),
    };
    let output = type_expr(&input);
    assert!(output);
}

#[test]
fn typer_accepts_literal_program() {
    let p = Program {
        main_function: MainFunction {
            statement: Statement::Return(Expr::Num(8)),
        },
    };
    assert!(type_program(&p));
}

#[test]
fn typer_rejects_bool_operand() {
    let input = Expr::Binary {
        op: Op::Add,
        l: Box::new(Expr::Num(9)),
        r: Box::new(Expr::Bool(true)),
    };
    assert!(!type_expr(&input));
}

#[test]
fn typer_rejects_variable() {
    assert!(!type_expr(&Expr::Var(String::from("x"))));
}
