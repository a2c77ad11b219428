//! Code generation: from the syntax tree to RV32I assembly text.
//!
//! Expressions evaluate by a stack discipline emulated over registers: every
//! subexpression pushes its result (grow the stack, store), every binary node
//! pops its two operands into scratch registers, computes into a third, and
//! pushes the result.  Variables live in a fixed frame of 26 words, one per
//! possible first letter, at offset `(letter - 'a') * 8` from the frame
//! pointer.  Each `if`/`else` gets its own label index from a counter that is
//! threaded through the traversal, so nested conditionals branch to distinct
//! labels.  The emitted lines are pinned exactly by `spec_gen`.

use vstd::prelude::*;

use crate::digits::int_str;
use crate::parser::BinOp;
use crate::parser::Expr;
use crate::parser::Id;
use crate::parser::Program;
use crate::parser::RelOp;
use crate::parser::Stmt;

verus! {

/// The construct that the generator cannot lower.
#[derive(Copy, Clone, PartialEq, Eq, Structural, Debug)]
pub enum ConstructKind {
    For,
    While,
    If,
    CompoundAssignment,
    StringLiteral,
    UnaryOperator,
    BitwiseOperator,
    LogicalOperator,
    Modulo,
    VariableName,
}

/// A code-generation failure.
#[derive(Copy, Clone, PartialEq, Eq, Structural, Debug)]
pub enum CodegenError {
    /// The program uses a construct the generator does not lower.
    UnsupportedConstruct { kind: ConstructKind },
    /// The label counter is exhausted.
    TooManyLabels,
}

/// An identifier the frame can store: its first letter is a lowercase ASCII
/// letter, which names its slot.
pub open spec fn id_ok(id: Seq<char>) -> bool {
    id.len() >= 1 && 97 <= id[0] as int <= 122
}

/// Frame-relative byte offset of a variable: `(first letter - 'a') * 8`.
pub open spec fn spec_offset(id: Seq<char>) -> int {
    (id[0] as int - 97) * 8
}

/// The views of a sequence of text lines.
pub open spec fn lines_model(v: Seq<String>) -> Seq<Seq<char>> {
    v.map_values(|s: String| s@)
}

/// The three lines that push the value of a variable.
pub open spec fn spec_var_lines(id: Seq<char>) -> Seq<Seq<char>> {
    seq![
        "lw t0,"@ + int_str(spec_offset(id)) + "(fp)"@,
        "addi sp,sp,-8"@,
        "sw t0,0(sp)"@,
    ]
}

/// The three lines that push an integer literal.
pub open spec fn spec_int_lines(n: int) -> Seq<Seq<char>> {
    seq!["li t1,"@ + int_str(n), "addi sp,sp,-8"@, "sw t1,0(sp)"@]
}

/// The four lines that pop the right operand into `t1` and the left into `t2`.
pub open spec fn spec_pop_operands() -> Seq<Seq<char>> {
    seq!["lw t1,0(sp)"@, "addi sp,sp,8"@, "lw t2,0(sp)"@, "addi sp,sp,8"@]
}

/// The two lines that push `t3`.
pub open spec fn spec_push_t3() -> Seq<Seq<char>> {
    seq!["addi sp,sp,-8"@, "sw t3,0(sp)"@]
}

/// The instruction for a binary arithmetic operator, operands in `t2,t1`
/// order so that subtraction and division see left before right.
pub open spec fn spec_bin_instr(op: BinOp) -> Seq<char> {
    match op {
        BinOp::Add => "add t3,t2,t1"@,
        BinOp::Sub => "sub t3,t2,t1"@,
        BinOp::Mult => "mul t3,t2,t1"@,
        BinOp::Div => "div t3,t2,t1"@,
        BinOp::Mod => ""@,
    }
}

/// The instructions that compute a relational operator into `t3`: equality
/// via `sub`/`seqz`, inequality with a final negation, orderings via `slt`
/// with swapped operands and, for the inclusive forms, a negation of the
/// strict converse; `&&` and `||` evaluate both operands eagerly.
pub open spec fn spec_rel_instr(op: RelOp) -> Seq<Seq<char>> {
    match op {
        RelOp::Eq => seq!["sub t3,t2,t1"@, "seqz t3,t3"@],
        RelOp::Neq => seq!["sub t3,t2,t1"@, "seqz t3,t3"@, "xori t3,t3,1"@],
        RelOp::And => seq!["and t3,t2,t1"@],
        RelOp::Or => seq!["or t3,t2,t1"@],
        RelOp::LtEq => seq!["slt t3,t1,t2"@, "xori t3,t3,1"@],
        RelOp::Lt => seq!["slt t3,t2,t1"@],
        RelOp::GtEq => seq!["slt t3,t2,t1"@, "xori t3,t3,1"@],
        RelOp::Gt => seq!["slt t3,t1,t2"@],
    }
}

/// The lines that evaluate an expression and leave its value on the stack
/// top, or the construct that prevents it.
pub open spec fn spec_gen_expr(e: Expr) -> Result<Seq<Seq<char>>, CodegenError>
    decreases e,
{
    match e {
        Expr::Var(id) => if id_ok(id.0@) {
            Ok(spec_var_lines(id.0@))
        } else {
            Err(CodegenError::UnsupportedConstruct { kind: ConstructKind::VariableName })
        },
        Expr::Int(n) => Ok(spec_int_lines(n as int)),
        Expr::BinE { op, l, r } => if op == BinOp::Mod {
            Err(CodegenError::UnsupportedConstruct { kind: ConstructKind::Modulo })
        } else {
            match spec_gen_expr(*l) {
                Err(e) => Err(e),
                Ok(ll) => match spec_gen_expr(*r) {
                    Err(e) => Err(e),
                    Ok(rl) => Ok(
                        ll + rl + spec_pop_operands() + seq![spec_bin_instr(op)]
                            + spec_push_t3(),
                    ),
                },
            }
        },
        Expr::RelE { op, l, r } => match spec_gen_expr(*l) {
            Err(e) => Err(e),
            Ok(ll) => match spec_gen_expr(*r) {
                Err(e) => Err(e),
                Ok(rl) => Ok(ll + rl + spec_pop_operands() + spec_rel_instr(op) + spec_push_t3()),
            },
        },
        Expr::LogE { .. } => Err(
            CodegenError::UnsupportedConstruct { kind: ConstructKind::LogicalOperator },
        ),
        Expr::BitE { .. } => Err(
            CodegenError::UnsupportedConstruct { kind: ConstructKind::BitwiseOperator },
        ),
        Expr::UnaryE { .. } => Err(
            CodegenError::UnsupportedConstruct { kind: ConstructKind::UnaryOperator },
        ),
        Expr::Str(_) => Err(
            CodegenError::UnsupportedConstruct { kind: ConstructKind::StringLiteral },
        ),
    }
}

/// The lines that evaluate the bound expression and store the popped result
/// into the variable's frame slot.
pub open spec fn spec_gen_asnmt(id: Seq<char>, e: Expr) -> Result<Seq<Seq<char>>, CodegenError> {
    if !id_ok(id) {
        Err(CodegenError::UnsupportedConstruct { kind: ConstructKind::VariableName })
    } else {
        match spec_gen_expr(e) {
            Err(err) => Err(err),
            Ok(el) => Ok(
                el + seq![
                    "lw t0,0(sp)"@,
                    "addi sp,sp,8"@,
                    "sw t0,"@ + int_str(spec_offset(id)) + "(fp)"@,
                ],
            ),
        }
    }
}

/// The branch label with the given index.
pub open spec fn spec_label(stem: Seq<char>, k: int) -> Seq<char> {
    stem + int_str(k)
}

/// The lines of one statement, and the label counter after it.  The counter
/// numbers each `if`/`else` so its `thn`/`els`/`end` labels are its own.
pub open spec fn spec_gen_stmt(s: Stmt, k: int) -> Result<
    (Seq<Seq<char>>, int),
    CodegenError,
>
    decreases s,
{
    match s {
        Stmt::Asnmt { id, expr } => match spec_gen_asnmt(id.0@, *expr) {
            Err(e) => Err(e),
            Ok(lines) => Ok((lines, k)),
        },
        Stmt::AsnmtUpdate { .. } => Err(
            CodegenError::UnsupportedConstruct { kind: ConstructKind::CompoundAssignment },
        ),
        Stmt::Return(e) => match spec_gen_expr(e) {
            Err(err) => Err(err),
            Ok(el) => Ok((el + seq!["lw a0,0(sp)"@, "addi sp,sp,8"@, "ret"@], k)),
        },
        Stmt::For => Err(CodegenError::UnsupportedConstruct { kind: ConstructKind::For }),
        Stmt::While => Err(CodegenError::UnsupportedConstruct { kind: ConstructKind::While }),
        Stmt::If => Err(CodegenError::UnsupportedConstruct { kind: ConstructKind::If }),
        Stmt::IfEls { cond, thn, els } => if k >= u64::MAX {
            Err(CodegenError::TooManyLabels)
        } else {
            match spec_gen_expr(*cond) {
                Err(e) => Err(e),
                Ok(cl) => match spec_gen_stmt(*thn, k + 1) {
                    Err(e) => Err(e),
                    Ok((tl, k1)) => match spec_gen_stmt(*els, k1) {
                        Err(e) => Err(e),
                        Ok((el, k2)) => {
                            let thn_lbl = spec_label("thn"@, k);
                            let els_lbl = spec_label("els"@, k);
                            let end_lbl = spec_label("end"@, k);
                            Ok(
                                (
                                    cl + seq![
                                        "lw t1,0(sp)"@,
                                        "addi sp,sp,8"@,
                                        "li t2,1"@,
                                        "beq t1,t2,"@ + thn_lbl,
                                        "bne t1,t2,"@ + els_lbl,
                                        thn_lbl + ":"@,
                                    ] + tl + seq!["j "@ + end_lbl, els_lbl + ":"@] + el + seq![
                                        "j "@ + end_lbl,
                                        end_lbl + ":"@,
                                        "ret"@,
                                    ],
                                    k2,
                                ),
                            )
                        },
                    },
                },
            }
        },
    }
}

/// The lines of the statements from `i` on, under the label counter `k`.
pub open spec fn spec_gen_stmts(ss: Seq<Stmt>, i: int, k: int) -> Result<
    (Seq<Seq<char>>, int),
    CodegenError,
>
    decreases ss.len() - i,
{
    if i < 0 || i >= ss.len() {
        Ok((Seq::<Seq<char>>::empty(), k))
    } else {
        match spec_gen_stmt(ss[i], k) {
            Err(e) => Err(e),
            Ok((lines, k1)) => match spec_gen_stmts(ss, i + 1, k1) {
                Err(e) => Err(e),
                Ok((rest, k2)) => Ok((lines + rest, k2)),
            },
        }
    }
}

/// The fixed lines that open the output: section directives, the `main`
/// label, and the prologue that sets the frame pointer and reserves the
/// 26-word frame.
pub open spec fn spec_header() -> Seq<Seq<char>> {
    seq![
        ".text"@,
        ".globl main"@,
        ".section .text"@,
        "main:"@,
        "mv fp,sp"@,
        "addi sp,sp,-208"@,
    ]
}

/// The whole output of the generator for a program.
pub open spec fn spec_gen(p: Program) -> Result<Seq<Seq<char>>, CodegenError> {
    match spec_gen_stmts(p.main_function.stmts@, 0, 0) {
        Err(e) => Err(e),
        Ok((body, _)) => Ok(spec_header() + body),
    }
}

/// Law: a program that returns the literal `n` compiles to the header, the
/// three lines that push `n` (with `n`'s own decimal text), and the three
/// lines that pop the pushed value into the return register and return it.
pub proof fn lemma_gen_return_literal(p: Program, n: i128)
    requires
        p.main_function.stmts@ == seq![Stmt::Return(Expr::Int(n))],
    ensures
        spec_gen(p) == Ok::<_, CodegenError>(
            spec_header() + spec_int_lines(n as int) + seq![
                "lw a0,0(sp)"@,
                "addi sp,sp,8"@,
                "ret"@,
            ],
        ),
{
    let ss = p.main_function.stmts@;
    let body = spec_int_lines(n as int) + seq!["lw a0,0(sp)"@, "addi sp,sp,8"@, "ret"@];
    assert(ss[0] == Stmt::Return(Expr::Int(n)));
    assert(spec_gen_expr(Expr::Int(n)) == Ok::<_, CodegenError>(spec_int_lines(n as int)));
    assert(spec_gen_stmt(ss[0], 0) == Ok::<_, CodegenError>((body, 0int)));
    assert(spec_gen_stmts(ss, 1, 0) == Ok::<_, CodegenError>(
        (Seq::<Seq<char>>::empty(), 0int),
    ));
    assert(body + Seq::<Seq<char>>::empty() =~= body);
    assert(spec_gen_stmts(ss, 0, 0) == Ok::<_, CodegenError>((body, 0int)));
    assert(spec_header() + body =~= spec_header() + spec_int_lines(n as int) + seq![
        "lw a0,0(sp)"@,
        "addi sp,sp,8"@,
        "ret"@,
    ]);
}

/// True when the variable's name maps to a frame slot.
fn check_id(id: &Id) -> (b: bool)
    ensures
        b == id_ok(id.0@),
{
    let s = id.0.as_str();
    let n = s.unicode_len();
    if n == 0 {
        false
    } else {
        let c = s.get_char(0);
        let v = c as u32;
        97 <= v && v <= 122
    }
}

/// Frame-relative byte offset of a variable: `(first letter - 'a') * 8`.
pub fn calc_offset(id: &Id) -> (r: u8)
    requires
        id_ok(id.0@),
    ensures
        r as int == spec_offset(id.0@),
{
    let c = id.0.as_str().get_char(0);
    let v = (c as u32 - 97) * 8;
    v as u8
}

/// Builds `prefix`, the decimal text of `n`, and `suffix` as one line.
fn num_line(prefix: &str, n: i128, suffix: &str) -> (r: String)
    ensures
        r@ == prefix@ + int_str(n as int) + suffix@,
{
    let r = String::from_str(prefix).concat(crate::digits::i128_to_string(n).as_str()).concat(
        suffix,
    );
    proof {
        assert(r@ =~= prefix@ + int_str(n as int) + suffix@);
    }
    r
}

/// The lines that evaluate `e` and leave its value on the stack top.
pub fn gen_expr(e: &Expr) -> (r: Result<Vec<String>, CodegenError>)
    ensures
        (r matches Ok(v) ==> spec_gen_expr(*e) == Ok::<_, CodegenError>(lines_model(v@))),
        (r matches Err(err) ==> spec_gen_expr(*e) == Err::<Seq<Seq<char>>, _>(err)),
    decreases *e,
{
    match e {
        Expr::Var(id) => {
            if !check_id(id) {
                return Err(
                    CodegenError::UnsupportedConstruct { kind: ConstructKind::VariableName },
                );
            }
            let off = calc_offset(id);
            let mut v: Vec<String> = Vec::new();
            v.push(num_line("lw t0,", off as i128, "(fp)"));
            v.push(String::from_str("addi sp,sp,-8"));
            v.push(String::from_str("sw t0,0(sp)"));
            proof {
                assert(lines_model(v@) =~= spec_var_lines(id.0@));
            }
            Ok(v)
        },
        Expr::Int(n) => {
            let mut v: Vec<String> = Vec::new();
            v.push(num_line("li t1,", *n, ""));
            v.push(String::from_str("addi sp,sp,-8"));
            v.push(String::from_str("sw t1,0(sp)"));
            proof {
                reveal_strlit("");
                assert(("li t1,"@ + int_str(*n as int) + ""@) =~= ("li t1,"@ + int_str(
                    *n as int,
                )));
                assert(lines_model(v@) =~= spec_int_lines(*n as int));
            }
            Ok(v)
        },
        Expr::BinE { op, l, r } => {
            if *op == BinOp::Mod {
                return Err(CodegenError::UnsupportedConstruct { kind: ConstructKind::Modulo });
            }
            let mut ll = match gen_expr(l) {
                Err(e) => {
                    return Err(e);
                },
                Ok(v) => v,
            };
            let mut rl = match gen_expr(r) {
                Err(e) => {
                    return Err(e);
                },
                Ok(v) => v,
            };
            let ghost gl = ll@;
            let ghost gr = rl@;
            ll.append(&mut rl);
            ll.push(String::from_str("lw t1,0(sp)"));
            ll.push(String::from_str("addi sp,sp,8"));
            ll.push(String::from_str("lw t2,0(sp)"));
            ll.push(String::from_str("addi sp,sp,8"));
            let instr: &'static str = match op {
                BinOp::Add => "add t3,t2,t1",
                BinOp::Sub => "sub t3,t2,t1",
                BinOp::Mult => "mul t3,t2,t1",
                BinOp::Div => "div t3,t2,t1",
                BinOp::Mod => "",
            };
            ll.push(String::from_str(instr));
            ll.push(String::from_str("addi sp,sp,-8"));
            ll.push(String::from_str("sw t3,0(sp)"));
            proof {
                assert(lines_model(ll@) =~= lines_model(gl) + lines_model(gr)
                    + spec_pop_operands() + seq![spec_bin_instr(*op)] + spec_push_t3());
            }
            Ok(ll)
        },
        Expr::RelE { op, l, r } => {
            let mut ll = match gen_expr(l) {
                Err(e) => {
                    return Err(e);
                },
                Ok(v) => v,
            };
            let mut rl = match gen_expr(r) {
                Err(e) => {
                    return Err(e);
                },
                Ok(v) => v,
            };
            let ghost gl = ll@;
            let ghost gr = rl@;
            ll.append(&mut rl);
            ll.push(String::from_str("lw t1,0(sp)"));
            ll.push(String::from_str("addi sp,sp,8"));
            ll.push(String::from_str("lw t2,0(sp)"));
            ll.push(String::from_str("addi sp,sp,8"));
            match op {
                RelOp::Eq => {
                    ll.push(String::from_str("sub t3,t2,t1"));
                    ll.push(String::from_str("seqz t3,t3"));
                },
                RelOp::Neq => {
                    ll.push(String::from_str("sub t3,t2,t1"));
                    ll.push(String::from_str("seqz t3,t3"));
                    ll.push(String::from_str("xori t3,t3,1"));
                },
                RelOp::And => {
                    ll.push(String::from_str("and t3,t2,t1"));
                },
                RelOp::Or => {
                    ll.push(String::from_str("or t3,t2,t1"));
                },
                RelOp::LtEq => {
                    ll.push(String::from_str("slt t3,t1,t2"));
                    ll.push(String::from_str("xori t3,t3,1"));
                },
                RelOp::Lt => {
                    ll.push(String::from_str("slt t3,t2,t1"));
                },
                RelOp::GtEq => {
                    ll.push(String::from_str("slt t3,t2,t1"));
                    ll.push(String::from_str("xori t3,t3,1"));
                },
                RelOp::Gt => {
                    ll.push(String::from_str("slt t3,t1,t2"));
                },
            }
            ll.push(String::from_str("addi sp,sp,-8"));
            ll.push(String::from_str("sw t3,0(sp)"));
            proof {
                assert(lines_model(ll@) =~= lines_model(gl) + lines_model(gr)
                    + spec_pop_operands() + spec_rel_instr(*op) + spec_push_t3());
            }
            Ok(ll)
        },
        Expr::LogE { .. } => Err(
            CodegenError::UnsupportedConstruct { kind: ConstructKind::LogicalOperator },
        ),
        Expr::BitE { .. } => Err(
            CodegenError::UnsupportedConstruct { kind: ConstructKind::BitwiseOperator },
        ),
        Expr::UnaryE { .. } => Err(
            CodegenError::UnsupportedConstruct { kind: ConstructKind::UnaryOperator },
        ),
        Expr::Str(_) => Err(
            CodegenError::UnsupportedConstruct { kind: ConstructKind::StringLiteral },
        ),
    }
}

/// The lines that bind `expr` to the variable `id`.
pub fn gen_asnmt(id: &Id, expr: &Expr) -> (r: Result<Vec<String>, CodegenError>)
    ensures
        (r matches Ok(v) ==> spec_gen_asnmt(id.0@, *expr) == Ok::<_, CodegenError>(
            lines_model(v@),
        )),
        (r matches Err(err) ==> spec_gen_asnmt(id.0@, *expr) == Err::<Seq<Seq<char>>, _>(err)),
{
    if !check_id(id) {
        return Err(CodegenError::UnsupportedConstruct { kind: ConstructKind::VariableName });
    }
    let off = calc_offset(id);
    let mut v = match gen_expr(expr) {
        Err(e) => {
            return Err(e);
        },
        Ok(v) => v,
    };
    let ghost ge = v@;
    v.push(String::from_str("lw t0,0(sp)"));
    v.push(String::from_str("addi sp,sp,8"));
    v.push(num_line("sw t0,", off as i128, "(fp)"));
    proof {
        assert(lines_model(v@) =~= lines_model(ge) + seq![
            "lw t0,0(sp)"@,
            "addi sp,sp,8"@,
            "sw t0,"@ + int_str(spec_offset(id.0@)) + "(fp)"@,
        ]);
    }
    Ok(v)
}

/// The lines of one statement, and the label counter after it.
pub fn gen_stmt(s: &Stmt, k: u64) -> (r: Result<(Vec<String>, u64), CodegenError>)
    ensures
        (r matches Ok(p) ==> spec_gen_stmt(*s, k as int) == Ok::<_, CodegenError>(
            (lines_model(p.0@), p.1 as int),
        )),
        (r matches Err(err) ==> spec_gen_stmt(*s, k as int) == Err::<(Seq<Seq<char>>, int), _>(
            err,
        )),
    decreases *s,
{
    match s {
        Stmt::Asnmt { id, expr } => match gen_asnmt(id, expr) {
            Err(e) => Err(e),
            Ok(v) => Ok((v, k)),
        },
        Stmt::AsnmtUpdate { .. } => Err(
            CodegenError::UnsupportedConstruct { kind: ConstructKind::CompoundAssignment },
        ),
        Stmt::Return(e) => {
            let mut v = match gen_expr(e) {
                Err(err) => {
                    return Err(err);
                },
                Ok(v) => v,
            };
            let ghost ge = v@;
            v.push(String::from_str("lw a0,0(sp)"));
            v.push(String::from_str("addi sp,sp,8"));
            v.push(String::from_str("ret"));
            proof {
                assert(lines_model(v@) =~= lines_model(ge) + seq![
                    "lw a0,0(sp)"@,
                    "addi sp,sp,8"@,
                    "ret"@,
                ]);
            }
            Ok((v, k))
        },
        Stmt::For => Err(CodegenError::UnsupportedConstruct { kind: ConstructKind::For }),
        Stmt::While => Err(CodegenError::UnsupportedConstruct { kind: ConstructKind::While }),
        Stmt::If => Err(CodegenError::UnsupportedConstruct { kind: ConstructKind::If }),
        Stmt::IfEls { cond, thn, els } => {
            if k == u64::MAX {
                return Err(CodegenError::TooManyLabels);
            }
            let mut v = match gen_expr(cond) {
                Err(e) => {
                    return Err(e);
                },
                Ok(v) => v,
            };
            let (mut tl, k1) = match gen_stmt(thn, k + 1) {
                Err(e) => {
                    return Err(e);
                },
                Ok(p) => p,
            };
            let (mut el, k2) = match gen_stmt(els, k1) {
                Err(e) => {
                    return Err(e);
                },
                Ok(p) => p,
            };
            let ghost gc = v@;
            let ghost gt = tl@;
            let ghost ge = el@;
            v.push(String::from_str("lw t1,0(sp)"));
            v.push(String::from_str("addi sp,sp,8"));
            v.push(String::from_str("li t2,1"));
            v.push(num_line("beq t1,t2,thn", k as i128, ""));
            v.push(num_line("bne t1,t2,els", k as i128, ""));
            v.push(num_line("thn", k as i128, ":"));
            v.append(&mut tl);
            v.push(num_line("j end", k as i128, ""));
            v.push(num_line("els", k as i128, ":"));
            v.append(&mut el);
            v.push(num_line("j end", k as i128, ""));
            v.push(num_line("end", k as i128, ":"));
            v.push(String::from_str("ret"));
            proof {
                let kk = k as int;
                reveal_strlit("");
                reveal_strlit(":");
                reveal_strlit("thn");
                reveal_strlit("els");
                reveal_strlit("end");
                reveal_strlit("j ");
                reveal_strlit("j end");
                reveal_strlit("beq t1,t2,");
                reveal_strlit("beq t1,t2,thn");
                reveal_strlit("bne t1,t2,");
                reveal_strlit("bne t1,t2,els");
                assert("beq t1,t2,thn"@ + int_str(kk) + ""@ =~= "beq t1,t2,"@ + spec_label(
                    "thn"@,
                    kk,
                ));
                assert("bne t1,t2,els"@ + int_str(kk) + ""@ =~= "bne t1,t2,"@ + spec_label(
                    "els"@,
                    kk,
                ));
                assert("thn"@ + int_str(kk) + ":"@ =~= spec_label("thn"@, kk) + ":"@);
                assert("j end"@ + int_str(kk) + ""@ =~= "j "@ + spec_label("end"@, kk));
                assert("els"@ + int_str(kk) + ":"@ =~= spec_label("els"@, kk) + ":"@);
                assert("end"@ + int_str(kk) + ":"@ =~= spec_label("end"@, kk) + ":"@);
                assert(lines_model(v@) =~= lines_model(gc) + seq![
                    "lw t1,0(sp)"@,
                    "addi sp,sp,8"@,
                    "li t2,1"@,
                    "beq t1,t2,"@ + spec_label("thn"@, kk),
                    "bne t1,t2,"@ + spec_label("els"@, kk),
                    spec_label("thn"@, kk) + ":"@,
                ] + lines_model(gt) + seq![
                    "j "@ + spec_label("end"@, kk),
                    spec_label("els"@, kk) + ":"@,
                ] + lines_model(ge) + seq![
                    "j "@ + spec_label("end"@, kk),
                    spec_label("end"@, kk) + ":"@,
                    "ret"@,
                ]);
            }
            Ok((v, k2))
        },
    }
}

/// The lines of the statements from `i` on, under the label counter `k`.
fn gen_stmts(ss: &Vec<Stmt>, i: usize, k: u64) -> (r: Result<(Vec<String>, u64), CodegenError>)
    requires
        i <= ss@.len(),
    ensures
        (r matches Ok(p) ==> spec_gen_stmts(ss@, i as int, k as int) == Ok::<_, CodegenError>(
            (lines_model(p.0@), p.1 as int),
        )),
        (r matches Err(err) ==> spec_gen_stmts(ss@, i as int, k as int) == Err::<
            (Seq<Seq<char>>, int),
            _,
        >(err)),
    decreases ss@.len() - i,
{
    if i == ss.len() {
        proof {
            assert(lines_model(Seq::<String>::empty()) =~= Seq::<Seq<char>>::empty());
        }
        return Ok((Vec::new(), k));
    }
    let (mut lines, k1) = match gen_stmt(&ss[i], k) {
        Err(e) => {
            return Err(e);
        },
        Ok(p) => p,
    };
    let (mut rest, k2) = match gen_stmts(ss, i + 1, k1) {
        Err(e) => {
            return Err(e);
        },
        Ok(p) => p,
    };
    let ghost gl = lines@;
    let ghost gr = rest@;
    lines.append(&mut rest);
    proof {
        assert(lines_model(lines@) =~= lines_model(gl) + lines_model(gr));
    }
    Ok((lines, k2))
}

/// Translates a program to RV32I assembly lines: the section header and
/// prologue, then the code of each statement in order.  Fails on any
/// construct the generator does not lower, naming it.
pub fn gen(tree: Program) -> (r: Result<Vec<String>, CodegenError>)
    ensures
        (r matches Ok(v) ==> spec_gen(tree) == Ok::<_, CodegenError>(lines_model(v@))),
        (r matches Err(err) ==> spec_gen(tree) == Err::<Seq<Seq<char>>, _>(err)),
{
    let (mut body, _k) = match gen_stmts(&tree.main_function.stmts, 0, 0) {
        Err(e) => {
            return Err(e);
        },
        Ok(p) => p,
    };
    let mut v: Vec<String> = Vec::new();
    v.push(String::from_str(".text"));
    v.push(String::from_str(".globl main"));
    v.push(String::from_str(".section .text"));
    v.push(String::from_str("main:"));
    v.push(String::from_str("mv fp,sp"));
    v.push(String::from_str("addi sp,sp,-208"));
    let ghost gb = body@;
    let ghost gh = v@;
    v.append(&mut body);
    proof {
        assert(lines_model(gh) =~= spec_header());
        assert(lines_model(v@) =~= spec_header() + lines_model(gb));
    }
    Ok(v)
}

} // verus!
