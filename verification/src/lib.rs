//! A small ahead-of-time compiler for a restricted subset of C: a single
//! `main` function with integer arithmetic, relational operators, assignment
//! and `if`/`else`, translated to RV32I assembly text.
//!
//! The pipeline is `lexer` (characters to tokens), `parser` (tokens to an
//! abstract syntax tree by recursive descent with precedence climbing) and
//! `generator` (syntax tree to assembly lines, emulating a stack machine over
//! registers).  The remaining modules are smaller companions: `scanner`,
//! `typer`, `eval`, `interpreter`, `stack_generator`, `register_generator`
//! and `gen` cover earlier, simpler stages of the same language.

pub mod arith;
pub mod ast;
pub mod digits;
pub mod eval;
pub mod gen;
pub mod generator;
pub mod interpreter;
pub mod ir;
pub mod lexer;
pub mod parser;
pub mod register_generator;
pub mod rep;
pub mod scanner;
pub mod stack_generator;
pub mod typer;
