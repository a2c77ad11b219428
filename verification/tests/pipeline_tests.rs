//! End-to-end scenarios: source text through the lexer, parser and code
//! generator, with the arithmetic evaluator confirming the value the
//! generated code computes.

use din::eval::eval_program;
use din::generator::gen;
use din::lexer::lex;
use din::parser::{parse, BinOp, Expr, Id, Program, RelOp, Stmt};
use din::rep;

fn compile(s: &str) -> (Program, Vec<String>) {
    let chars: Vec<char> = s.chars().collect();
    let tree = parse(lex(&chars).unwrap()).unwrap();
    // `gen` consumes its tree, so parse a second copy for the caller.
    let lines = gen(parse(lex(&chars).unwrap()).unwrap()).unwrap();
    (tree, lines)
}

fn rep_ret(e: rep::Expr) -> rep::Program {
    rep::Program {
        main_function: rep::MainFunction { statement: rep::Statement::Return(e) },
    }
}

fn rep_bin(op: rep::Op, l: rep::Expr, r: rep::Expr) -> rep::Expr {
    rep::Expr::Binary { op, l: Box::new(l), r: Box::new(r) }
}

#[test]
fn scenario_return_literal() {
    let (tree, lines) = compile("int main(){return 8;}");
    assert_eq!(tree.main_function.stmts, vec![Stmt::Return(Expr::Int(8))]);
    assert!(lines.contains(&String::from("li t1,8")));
    assert_eq!(lines.last().unwrap(), "ret");
    assert_eq!(eval_program(rep_ret(rep::Expr::Num(8))), rep::Val::Num(8));
}

#[test]
fn scenario_return_addition() {
    let (tree, lines) = compile("int main(){return 9+10;}");
    assert_eq!(
        tree.main_function.stmts,
        vec![Stmt::Return(Expr::BinE {
            op: BinOp::Add,
            l: Box::new(Expr::Int(9)),
            r: Box::new(Expr::Int(10)),
        })]
    );
    assert!(lines.contains(&String::from("add t3,t2,t1")));
    assert_eq!(
        eval_program(rep_ret(rep_bin(rep::Op::Add, rep::Expr::Num(9), rep::Expr::Num(10)))),
        rep::Val::Num(19)
    );
}

#[test]
fn scenario_return_precedence() {
    let (tree, lines) = compile("int main(){return 9+10*11;}");
    assert_eq!(
        tree.main_function.stmts,
        vec![Stmt::Return(Expr::BinE {
            op: BinOp::Add,
            l: Box::new(Expr::Int(9)),
            r: Box::new(Expr::BinE {
                op: BinOp::Mult,
                l: Box::new(Expr::Int(10)),
                r: Box::new(Expr::Int(11)),
            }),
        })]
    );
    assert!(lines.contains(&String::from("mul t3,t2,t1")));
    assert_eq!(
        eval_program(rep_ret(rep_bin(
            rep::Op::Add,
            rep::Expr::Num(9),
            rep_bin(rep::Op::Multiply, rep::Expr::Num(10), rep::Expr::Num(11)),
        ))),
        rep::Val::Num(119)
    );
}

#[test]
fn scenario_assignment() {
    let (tree, lines) = compile("int main(){int x=8; return x;}");
    assert_eq!(
        tree.main_function.stmts,
        vec![
            Stmt::Asnmt { id: Id(String::from("x")), expr: Box::new(Expr::Int(8)) },
            Stmt::Return(Expr::Var(Id(String::from("x")))),
        ]
    );
    assert!(lines.contains(&String::from("sw t0,184(fp)")));
    assert!(lines.contains(&String::from("lw t0,184(fp)")));
}

#[test]
fn scenario_if_else() {
    let (tree, lines) = compile("int main(){if(9<10){return 0;}else{return 1;}}");
    assert_eq!(
        tree.main_function.stmts,
        vec![Stmt::IfEls {
            cond: Box::new(Expr::RelE {
                op: RelOp::Lt,
                l: Box::new(Expr::Int(9)),
                r: Box::new(Expr::Int(10)),
            }),
            thn: Box::new(Stmt::Return(Expr::Int(0))),
            els: Box::new(Stmt::Return(Expr::Int(1))),
        }]
    );
    assert!(lines.contains(&String::from("slt t3,t2,t1")));
    assert!(lines.contains(&String::from("beq t1,t2,thn0")));
    let thn_at = lines.iter().position(|l| l == "thn0:").unwrap();
    assert_eq!(lines[thn_at + 1], "li t1,0");
}
