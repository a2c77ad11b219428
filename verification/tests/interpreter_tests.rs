use std::collections::HashMap;

use din::ast::{Expr, Op, Val};
use din::interpreter::Interpreter;

#[test]
fn literal_simple() {
    let interpreter = Interpreter {};
    let (e, nv) = (Expr::Num(8), HashMap::new());
    let output = interpreter.eval(e, nv);
    assert_eq!(output, Val::Num(8));
}

#[test]
fn binary_simple() {
    let interpreter = Interpreter {};
    let (e, nv) = (
        Expr::Binary {
            op: Op::Add,
            l: Box::new(Expr::Num(9)),
            r: Box::new(Expr::Num(10)),
        },
        HashMap::new(),
    );
    let output = interpreter.eval(e, nv);
    assert_eq!(output, Val::Num(19));
}

#[test]
fn binary_complex_one() {
    let interpreter = Interpreter {};
    let (e, nv) = (
        Expr::Binary {
            op: Op::Add,
            l: Box::new(Expr::Num(9)),
            r: Box::new(Expr::Binary {
                op: Op::Add,
                l: Box::new(Expr::Num(9)),
                r: Box::new(Expr::Num(10)),
            }),
        },
        HashMap::new(),
    );
    let output = interpreter.eval(e, nv);
    assert_eq!(output, Val::Num(28));
}

#[test]
fn binary_complex_two() {
    let interpreter = Interpreter {};
    let (e, nv) = (
        Expr::Binary {
            op: Op::Add,
            l: Box::new(Expr::Num(9)),
            r: Box::new(Expr::Binary {
                op: Op::Multiply,
                l: Box::new(Expr::Num(2)),
                r: Box::new(Expr::Num(3)),
            }),
        },
        HashMap::new(),
    );
    let output = interpreter.eval(e, nv);
    assert_eq!(output, Val::Num(15));
}

#[test]
fn if_then_simple() {
    let interpreter = Interpreter {};
    let (e, nv) = (
        Expr::If {
            cond: Box::new(Expr::Num(0)),
            thn: Box::new(Expr::Num(8)),
            els: Box::new(Expr::Num(88)),
        },
        HashMap::new(),
    );
    let output = interpreter.eval(e, nv);
    assert_eq!(output, Val::Num(0));
}

#[test]
fn if_then_complex() {
    let interpreter = Interpreter {};
    let (e, nv) = (
        Expr::If {
            cond: Box::new(Expr::Binary {
                op: Op::Add,
                l: Box::new(Expr::Num(10)),
                r: Box::new(Expr::Num(-10)),
            }),
            thn: Box::new(Expr::Num(8)),
            els: Box::new(Expr::Num(88)),
        },
        HashMap::new(),
    );
    let output = interpreter.eval(e, nv);
    assert_eq!(output, Val::Num(0));
}

#[test]
fn if_else() {
    let interpreter = Interpreter {};
    let (e, nv) = (
        Expr::If {
            cond: Box::new(Expr::Num(1)),
            thn: Box::new(Expr::Num(8)),
            els: Box::new(Expr::Num(88)),
        },
        HashMap::new(),
    );
    let output = interpreter.eval(e, nv);
    assert_eq!(output, Val::Num(0));
}
