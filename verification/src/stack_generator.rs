//! Code generation to a one-address stack machine: arithmetic becomes
//! postfix opcodes.  The machine's semantics is specified by [`run_ops`],
//! and the generated code is proved to leave exactly the expression's value
//! on top of any starting stack.

use vstd::prelude::*;

use crate::arith::trunc_div;
use crate::rep::Expr;
use crate::rep::Op;
use crate::rep::Program;
use crate::rep::Statement;
use crate::rep::arith_val;
use crate::rep::div_ok;
use crate::rep::is_arith;

verus! {

/// A stack-machine instruction.  The one address is implicit: the top of the
/// stack, so every arithmetic opcode pops its operands and pushes its result.
#[derive(Clone, Copy, PartialEq, Eq, Structural, Debug)]
pub enum OpCode {
    // ARITHMETIC
    ADD,
    SUB,
    MULT,
    DIV,
    // STORE
    PUSH(i128),
}

/// The opcode of a binary operator.
pub open spec fn spec_opcode(op: Op) -> OpCode {
    match op {
        Op::Add => OpCode::ADD,
        Op::Subtract => OpCode::SUB,
        Op::Multiply => OpCode::MULT,
        Op::Divide => OpCode::DIV,
    }
}

/// The postfix code of an arithmetic expression: left operand, right
/// operand, operator.
pub open spec fn spec_stack_code(e: Expr) -> Seq<OpCode>
    decreases e,
{
    match e {
        Expr::Num(n) => seq![OpCode::PUSH(n)],
        Expr::Binary { op, l, r } => spec_stack_code(*l) + spec_stack_code(*r) + seq![
            spec_opcode(op),
        ],
        _ => Seq::<OpCode>::empty(),
    }
}

/// Runs opcodes on a stack of unbounded integers.  `None` is a fault: an
/// arithmetic opcode on fewer than two values, or a division by zero.
pub open spec fn run_ops(ops: Seq<OpCode>, st: Seq<int>) -> Option<Seq<int>>
    decreases ops.len(),
{
    if ops.len() == 0 {
        Some(st)
    } else {
        match ops[0] {
            OpCode::PUSH(n) => run_ops(ops.skip(1), st.push(n as int)),
            OpCode::ADD => if st.len() >= 2 {
                run_ops(ops.skip(1), binop_stack(st, st[st.len() - 2] + st.last()))
            } else {
                None
            },
            OpCode::SUB => if st.len() >= 2 {
                run_ops(ops.skip(1), binop_stack(st, st[st.len() - 2] - st.last()))
            } else {
                None
            },
            OpCode::MULT => if st.len() >= 2 {
                run_ops(ops.skip(1), binop_stack(st, st[st.len() - 2] * st.last()))
            } else {
                None
            },
            OpCode::DIV => if st.len() >= 2 && st.last() != 0 {
                run_ops(ops.skip(1), binop_stack(st, trunc_div(st[st.len() - 2], st.last())))
            } else {
                None
            },
        }
    }
}

/// The stack after a binary opcode: both operands popped, the result pushed.
pub open spec fn binop_stack(st: Seq<int>, v: int) -> Seq<int> {
    st.drop_last().drop_last().push(v)
}

/// Running `x` then `y` is running `x` and, unless it faulted, running `y`
/// on what it left.
proof fn lemma_run_ops_append(x: Seq<OpCode>, y: Seq<OpCode>, st: Seq<int>)
    ensures
        run_ops(x + y, st) == (match run_ops(x, st) {
            None => None::<Seq<int>>,
            Some(s2) => run_ops(y, s2),
        }),
    decreases x.len(),
{
    if x.len() == 0 {
        assert(x + y =~= y);
    } else {
        assert((x + y)[0] == x[0]);
        assert((x + y).skip(1) =~= x.skip(1) + y);
        match x[0] {
            OpCode::PUSH(n) => {
                lemma_run_ops_append(x.skip(1), y, st.push(n as int));
            },
            OpCode::ADD => {
                if st.len() >= 2 {
                    lemma_run_ops_append(x.skip(1), y, binop_stack(st, st[st.len() - 2] + st.last()));
                }
            },
            OpCode::SUB => {
                if st.len() >= 2 {
                    lemma_run_ops_append(x.skip(1), y, binop_stack(st, st[st.len() - 2] - st.last()));
                }
            },
            OpCode::MULT => {
                if st.len() >= 2 {
                    lemma_run_ops_append(x.skip(1), y, binop_stack(st, st[st.len() - 2] * st.last()));
                }
            },
            OpCode::DIV => {
                if st.len() >= 2 && st.last() != 0 {
                    lemma_run_ops_append(
                        x.skip(1),
                        y,
                        binop_stack(st, trunc_div(st[st.len() - 2], st.last())),
                    );
                }
            },
        }
    }
}

/// Law: the generated code computes the expression.  Run on any starting
/// stack, the postfix code of an arithmetic expression with no zero divisor
/// never faults and leaves the stack with exactly the expression's value on
/// top.  In particular, for a literal `N` the code is one push whose final
/// value is `N`.
pub proof fn lemma_stack_code_correct(e: Expr, st: Seq<int>)
    requires
        is_arith(e),
        div_ok(e),
    ensures
        run_ops(spec_stack_code(e), st) == Some(st.push(arith_val(e))),
    decreases e,
{
    match e {
        Expr::Num(n) => {
            let code = seq![OpCode::PUSH(n)];
            assert(spec_stack_code(e) == code);
            assert(code[0] == OpCode::PUSH(n));
            assert(code.skip(1) =~= Seq::<OpCode>::empty());
            assert(run_ops(code.skip(1), st.push(n as int)) == Some(st.push(n as int)));
            assert(run_ops(code, st) == Some(st.push(n as int)));
        },
        Expr::Binary { op, l, r } => {
            let cl = spec_stack_code(*l);
            let cr = spec_stack_code(*r);
            let tail = seq![spec_opcode(op)];
            lemma_stack_code_correct(*l, st);
            lemma_stack_code_correct(*r, st.push(arith_val(*l)));
            lemma_run_ops_append(cl, cr, st);
            lemma_run_ops_append(cl + cr, tail, st);
            assert((cl + cr) + tail =~= spec_stack_code(e));
            let s2 = st.push(arith_val(*l)).push(arith_val(*r));
            assert(run_ops(cl + cr, st) == Some(s2));
            assert(s2.len() >= 2);
            assert(s2[s2.len() - 2] == arith_val(*l));
            assert(s2.last() == arith_val(*r));
            assert(tail.skip(1) =~= Seq::<OpCode>::empty());
            assert(binop_stack(s2, arith_val(e)) =~= st.push(arith_val(e)));
            let a = arith_val(*l);
            let b = arith_val(*r);
            match op {
                Op::Add => {
                    assert(tail[0] == spec_opcode(op));
                    assert(run_ops(tail.skip(1), binop_stack(s2, a + b)) == Some(
                        binop_stack(s2, a + b),
                    ));
                    assert(arith_val(e) == a + b);
                    assert(run_ops(tail, s2) == Some(binop_stack(s2, a + b)));
                },
                Op::Subtract => {
                    assert(tail[0] == spec_opcode(op));
                    assert(run_ops(tail.skip(1), binop_stack(s2, a - b)) == Some(
                        binop_stack(s2, a - b),
                    ));
                    assert(arith_val(e) == a - b);
                    assert(run_ops(tail, s2) == Some(binop_stack(s2, a - b)));
                },
                Op::Multiply => {
                    assert(tail[0] == spec_opcode(op));
                    assert(run_ops(tail.skip(1), binop_stack(s2, a * b)) == Some(
                        binop_stack(s2, a * b),
                    ));
                    assert(arith_val(e) == a * b);
                    assert(run_ops(tail, s2) == Some(binop_stack(s2, a * b)));
                },
                Op::Divide => {
                    assert(b != 0);
                    assert(tail[0] == spec_opcode(op));
                    assert(run_ops(tail.skip(1), binop_stack(s2, trunc_div(a, b))) == Some(
                        binop_stack(s2, trunc_div(a, b)),
                    ));
                    assert(arith_val(e) == trunc_div(a, b));
                    assert(run_ops(tail, s2) == Some(binop_stack(s2, trunc_div(a, b))));
                },
            }
            assert(run_ops(spec_stack_code(e), st) == Some(st.push(arith_val(e))));
        },
        _ => {},
    }
}

/// Translates a program, whose statement must return an arithmetic
/// expression, to stack code.
pub fn gen(tree: Program) -> (r: Vec<OpCode>)
    requires
        match tree.main_function.statement {
            Statement::Return(e) => is_arith(e),
        },
    ensures
        r@ == (match tree.main_function.statement {
            Statement::Return(e) => spec_stack_code(e),
        }),
{
    match tree.main_function.statement {
        Statement::Return(e) => gen_expr(&e),
    }
}

/// The postfix code of one arithmetic expression.
pub fn gen_expr(e: &Expr) -> (r: Vec<OpCode>)
    requires
        is_arith(*e),
    ensures
        r@ == spec_stack_code(*e),
    decreases *e,
{
    match e {
        Expr::Num(n) => {
            let mut v: Vec<OpCode> = Vec::new();
            v.push(OpCode::PUSH(*n));
            proof {
                assert(v@ =~= seq![OpCode::PUSH(*n)]);
            }
            v
        },
        Expr::Binary { op, l, r } => {
            let mut lv = gen_expr(l);
            let mut rv = gen_expr(r);
            let ghost gl = lv@;
            let ghost gr = rv@;
            lv.append(&mut rv);
            let opc = match op {
                Op::Add => OpCode::ADD,
                Op::Subtract => OpCode::SUB,
                Op::Multiply => OpCode::MULT,
                Op::Divide => OpCode::DIV,
            };
            lv.push(opc);
            proof {
                assert(lv@ =~= gl + gr + seq![spec_opcode(*op)]);
            }
            lv
        },
        _ => unreached(),
    }
}

} // verus!
