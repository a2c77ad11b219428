use din::generator::{gen, CodegenError, ConstructKind};
use din::lexer::lex;
use din::parser::{parse, BinOp, Expr, Id, MainFunction, Program, Stmt, UnaryOp};

fn compile(s: &str) -> Vec<String> {
    gen(parse(lex(&s.chars().collect::<Vec<char>>()).unwrap()).unwrap()).unwrap()
}

fn lines(v: &[&str]) -> Vec<String> {
    v.iter().map(|s| String::from(*s)).collect()
}

fn program_of(stmts: Vec<Stmt>) -> Program {
    Program { main_function: MainFunction { stmts } }
}

#[test]
fn gen_return_literal() {
    assert_eq!(
        compile("int main() { return 8; }"),
        lines(&[
            ".text",
            ".globl main",
            ".section .text",
            "main:",
            "mv fp,sp",
            "addi sp,sp,-208",
            "li t1,8",
            "addi sp,sp,-8",
            "sw t1,0(sp)",
            "lw a0,0(sp)",
            "addi sp,sp,8",
            "ret",
        ])
    );
}

#[test]
fn gen_return_addition() {
    assert_eq!(
        compile("int main() { return 9 + 10; }"),
        lines(&[
            ".text",
            ".globl main",
            ".section .text",
            "main:",
            "mv fp,sp",
            "addi sp,sp,-208",
            "li t1,9",
            "addi sp,sp,-8",
            "sw t1,0(sp)",
            "li t1,10",
            "addi sp,sp,-8",
            "sw t1,0(sp)",
            "lw t1,0(sp)",
            "addi sp,sp,8",
            "lw t2,0(sp)",
            "addi sp,sp,8",
            "add t3,t2,t1",
            "addi sp,sp,-8",
            "sw t3,0(sp)",
            "lw a0,0(sp)",
            "addi sp,sp,8",
            "ret",
        ])
    );
}

#[test]
fn gen_assignment_uses_frame_slot() {
    let out = compile("int main() { int x = 8; return x; }");
    // 'x' is the 24th letter: offset (120 - 97) * 8 = 184.
    assert!(out.contains(&String::from("sw t0,184(fp)")));
    assert!(out.contains(&String::from("lw t0,184(fp)")));
}

#[test]
fn gen_if_else_branches_and_labels() {
    let out = compile("int main() { if (9 < 10) { return 0; } else { return 1; } }");
    assert!(out.contains(&String::from("slt t3,t2,t1")));
    assert!(out.contains(&String::from("beq t1,t2,thn0")));
    assert!(out.contains(&String::from("bne t1,t2,els0")));
    assert!(out.contains(&String::from("thn0:")));
    assert!(out.contains(&String::from("els0:")));
    assert!(out.contains(&String::from("end0:")));
    assert!(out.contains(&String::from("j end0")));
}

#[test]
fn gen_nested_ifs_use_distinct_labels() {
    let out = compile(
        "int main() { if (1 < 2) { if (3 < 4) { return 0; } else { return 1; } } else { return 2; } }",
    );
    assert!(out.contains(&String::from("thn0:")));
    assert!(out.contains(&String::from("thn1:")));
    assert!(out.contains(&String::from("els0:")));
    assert!(out.contains(&String::from("els1:")));
    assert!(out.contains(&String::from("end0:")));
    assert!(out.contains(&String::from("end1:")));
}

#[test]
fn gen_negative_literal_text() {
    let p = program_of(vec![Stmt::Return(Expr::Int(-5))]);
    let out = gen(p).unwrap();
    assert!(out.contains(&String::from("li t1,-5")));
}

#[test]
fn gen_rejects_compound_assignment() {
    let p = program_of(vec![Stmt::AsnmtUpdate { op: BinOp::Add, expr: Box::new(Expr::Int(1)) }]);
    assert_eq!(
        gen(p).unwrap_err(),
        CodegenError::UnsupportedConstruct { kind: ConstructKind::CompoundAssignment }
    );
}

#[test]
fn gen_rejects_modulo() {
    let p = program_of(vec![Stmt::Return(Expr::BinE {
        op: BinOp::Mod,
        l: Box::new(Expr::Int(9)),
        r: Box::new(Expr::Int(2)),
    })]);
    assert_eq!(
        gen(p).unwrap_err(),
        CodegenError::UnsupportedConstruct { kind: ConstructKind::Modulo }
    );
}

#[test]
fn gen_rejects_loops_and_bare_if() {
    assert_eq!(
        gen(program_of(vec![Stmt::For])).unwrap_err(),
        CodegenError::UnsupportedConstruct { kind: ConstructKind::For }
    );
    assert_eq!(
        gen(program_of(vec![Stmt::While])).unwrap_err(),
        CodegenError::UnsupportedConstruct { kind: ConstructKind::While }
    );
    assert_eq!(
        gen(program_of(vec![Stmt::If])).unwrap_err(),
        CodegenError::UnsupportedConstruct { kind: ConstructKind::If }
    );
}

#[test]
fn gen_rejects_unary_and_string() {
    let p = program_of(vec![Stmt::Return(Expr::UnaryE {
        op: UnaryOp::Sub,
        l: Box::new(Expr::Int(9)),
    })]);
    assert_eq!(
        gen(p).unwrap_err(),
        CodegenError::UnsupportedConstruct { kind: ConstructKind::UnaryOperator }
    );
    let q = program_of(vec![Stmt::Return(Expr::Str(String::from("abc")))]);
    assert_eq!(
        gen(q).unwrap_err(),
        CodegenError::UnsupportedConstruct { kind: ConstructKind::StringLiteral }
    );
}

#[test]
fn gen_rejects_unstorable_variable_name() {
    let p = program_of(vec![Stmt::Return(Expr::Var(Id(String::from("X"))))]);
    assert_eq!(
        gen(p).unwrap_err(),
        CodegenError::UnsupportedConstruct { kind: ConstructKind::VariableName }
    );
}

#[test]
fn gen_rejects_logical_and_bitwise_operators() {
    let p = program_of(vec![Stmt::Return(Expr::LogE {
        op: din::parser::LogOp::And,
        l: Box::new(Expr::Int(1)),
        r: Box::new(Expr::Int(1)),
    })]);
    assert_eq!(
        gen(p).unwrap_err(),
        CodegenError::UnsupportedConstruct { kind: ConstructKind::LogicalOperator }
    );
    let q = program_of(vec![Stmt::Return(Expr::BitE {
        op: din::parser::BitOp::Xor,
        l: Box::new(Expr::Int(1)),
        r: Box::new(Expr::Int(1)),
    })]);
    assert_eq!(
        gen(q).unwrap_err(),
        CodegenError::UnsupportedConstruct { kind: ConstructKind::BitwiseOperator }
    );
}
