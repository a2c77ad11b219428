//! Syntactic analysis: recursive descent with precedence climbing.
//!
//! The grammar has four tiers.  A statement is an assignment, a compound
//! assignment, a `return`, or an `if`/`else`; an expression is parsed in three
//! tiers (relational, additive, multiplicative), each a left fold over the
//! tier below, so every chain of same-tier operators associates to the left.
//! Relational operators need one token of lookahead past their first
//! character; a token examined but not matched is left in the stream.
//!
//! The executable parser is proved equal to the specification-level parser
//! `spec_parse`, a direct transcription of the grammar.

use vstd::prelude::*;

use crate::digits::all_digits;
use crate::digits::digits_val;
use crate::lexer::SpecToken;
use crate::lexer::Token;
use crate::lexer::TokenType;
use crate::lexer::tokens_model;

verus! {

/// A whole source program: exactly one `main` function.
#[derive(PartialEq, Debug)]
pub struct Program {
    pub main_function: MainFunction,
}

/// The body of `main`: its statements in program order.
#[derive(PartialEq, Debug)]
pub struct MainFunction {
    pub stmts: Vec<Stmt>,
}

/// An identifier.
#[derive(Clone, PartialEq, Debug)]
pub struct Id(pub String);

/// A statement.
#[derive(PartialEq, Debug)]
pub enum Stmt {
    Asnmt { id: Id, expr: Box<Expr> },
    AsnmtUpdate { op: BinOp, expr: Box<Expr> },
    Return(Expr),
    For,
    While,
    If,
    IfEls { cond: Box<Expr>, thn: Box<Stmt>, els: Box<Stmt> },
}

/// An expression: a variable or literal, or an operation over subexpressions.
#[derive(PartialEq, Debug)]
pub enum Expr {
    // eliminations (operations)
    Var(Id),
    LogE { op: LogOp, l: Box<Expr>, r: Box<Expr> },
    BitE { op: BitOp, l: Box<Expr>, r: Box<Expr> },
    RelE { op: RelOp, l: Box<Expr>, r: Box<Expr> },
    BinE { op: BinOp, l: Box<Expr>, r: Box<Expr> },
    UnaryE { op: UnaryOp, l: Box<Expr> },
    // introductions (operands)
    Int(i128),
    Str(String),
}

/// A logical operator.
#[derive(Clone, Copy, PartialEq, Eq, Structural, Debug)]
pub enum LogOp {
    And,
    Or,
}

/// A bitwise operator.
#[derive(Clone, Copy, PartialEq, Eq, Structural, Debug)]
pub enum BitOp {
    And,
    Or,
    Xor,
}

/// A relational-tier operator.
#[derive(Clone, Copy, PartialEq, Eq, Structural, Debug)]
pub enum RelOp {
    Eq,
    Neq,
    And,
    Or,
    LtEq,
    Lt,
    GtEq,
    Gt,
}

/// A binary arithmetic operator.
#[derive(Clone, Copy, PartialEq, Eq, Structural, Debug)]
pub enum BinOp {
    Add,
    Sub,
    Mult,
    Div,
    Mod,
}

/// A unary operator.
#[derive(Clone, Copy, PartialEq, Eq, Structural, Debug)]
pub enum UnaryOp {
    Add,
    Sub,
}

/// A parse failure, reported for the first defect found.
#[derive(PartialEq, Debug)]
pub enum ParseError {
    /// A structurally required token was of the wrong kind.
    ExpectedToken { expected: TokenType, found: Token },
    /// The token stream ended where a token was structurally required.
    UnexpectedEof,
    /// Tokens remained after the closing brace of `main`.
    TrailingTokens,
    /// An integer literal whose lexeme is not a digit string or does not fit.
    InvalidLiteral { found: Token },
    /// A token that no production can begin or continue with.
    UnexpectedToken { found: Token },
}

/// The mathematical image of an [`Expr`].
pub ghost enum SpecExpr {
    Var(Seq<char>),
    LogE { op: LogOp, l: Box<SpecExpr>, r: Box<SpecExpr> },
    BitE { op: BitOp, l: Box<SpecExpr>, r: Box<SpecExpr> },
    RelE { op: RelOp, l: Box<SpecExpr>, r: Box<SpecExpr> },
    BinE { op: BinOp, l: Box<SpecExpr>, r: Box<SpecExpr> },
    UnaryE { op: UnaryOp, l: Box<SpecExpr> },
    Int(int),
    Str(Seq<char>),
}

/// The mathematical image of a [`Stmt`].
pub ghost enum SpecStmt {
    Asnmt { id: Seq<char>, expr: Box<SpecExpr> },
    AsnmtUpdate { op: BinOp, expr: Box<SpecExpr> },
    Return(SpecExpr),
    For,
    While,
    If,
    IfEls { cond: Box<SpecExpr>, thn: Box<SpecStmt>, els: Box<SpecStmt> },
}

/// The mathematical image of a [`MainFunction`].
pub ghost struct SpecMainFunction {
    pub stmts: Seq<SpecStmt>,
}

/// The mathematical image of a [`Program`].
pub ghost struct SpecProgram {
    pub main_function: SpecMainFunction,
}

/// The mathematical image of a [`ParseError`].
pub ghost enum SpecParseError {
    ExpectedToken { expected: TokenType, found: SpecToken },
    UnexpectedEof,
    TrailingTokens,
    InvalidLiteral { found: SpecToken },
    UnexpectedToken { found: SpecToken },
}

impl Expr {
    /// The expression as its mathematical image.
    pub open spec fn model(self) -> SpecExpr
        decreases self,
    {
        match self {
            Expr::Var(id) => SpecExpr::Var(id.0@),
            Expr::LogE { op, l, r } => SpecExpr::LogE {
                op,
                l: Box::new((*l).model()),
                r: Box::new((*r).model()),
            },
            Expr::BitE { op, l, r } => SpecExpr::BitE {
                op,
                l: Box::new((*l).model()),
                r: Box::new((*r).model()),
            },
            Expr::RelE { op, l, r } => SpecExpr::RelE {
                op,
                l: Box::new((*l).model()),
                r: Box::new((*r).model()),
            },
            Expr::BinE { op, l, r } => SpecExpr::BinE {
                op,
                l: Box::new((*l).model()),
                r: Box::new((*r).model()),
            },
            Expr::UnaryE { op, l } => SpecExpr::UnaryE { op, l: Box::new((*l).model()) },
            Expr::Int(n) => SpecExpr::Int(n as int),
            Expr::Str(s) => SpecExpr::Str(s@),
        }
    }
}

impl Stmt {
    /// The statement as its mathematical image.
    pub open spec fn model(self) -> SpecStmt
        decreases self,
    {
        match self {
            Stmt::Asnmt { id, expr } => SpecStmt::Asnmt {
                id: id.0@,
                expr: Box::new((*expr).model()),
            },
            Stmt::AsnmtUpdate { op, expr } => SpecStmt::AsnmtUpdate {
                op,
                expr: Box::new((*expr).model()),
            },
            Stmt::Return(e) => SpecStmt::Return(e.model()),
            Stmt::For => SpecStmt::For,
            Stmt::While => SpecStmt::While,
            Stmt::If => SpecStmt::If,
            Stmt::IfEls { cond, thn, els } => SpecStmt::IfEls {
                cond: Box::new((*cond).model()),
                thn: Box::new((*thn).model()),
                els: Box::new((*els).model()),
            },
        }
    }
}

/// The images of a sequence of statements.
pub open spec fn stmts_model(ss: Seq<Stmt>) -> Seq<SpecStmt> {
    ss.map_values(|s: Stmt| s.model())
}

impl MainFunction {
    /// The function as its mathematical image.
    pub open spec fn model(self) -> SpecMainFunction {
        SpecMainFunction { stmts: stmts_model(self.stmts@) }
    }
}

impl Program {
    /// The program as its mathematical image.
    pub open spec fn model(self) -> SpecProgram {
        SpecProgram { main_function: self.main_function.model() }
    }
}

impl ParseError {
    /// The error as its mathematical image.
    pub open spec fn model(self) -> SpecParseError {
        match self {
            ParseError::ExpectedToken { expected, found } => SpecParseError::ExpectedToken {
                expected,
                found: found.model(),
            },
            ParseError::UnexpectedEof => SpecParseError::UnexpectedEof,
            ParseError::TrailingTokens => SpecParseError::TrailingTokens,
            ParseError::InvalidLiteral { found } => SpecParseError::InvalidLiteral {
                found: found.model(),
            },
            ParseError::UnexpectedToken { found } => SpecParseError::UnexpectedToken {
                found: found.model(),
            },
        }
    }
}

/// An integer literal lexeme that names an `i128` value: a nonempty digit
/// string whose value fits.
pub open spec fn literal_ok(lx: Seq<char>) -> bool {
    lx.len() >= 1 && all_digits(lx) && digits_val(lx) <= i128::MAX
}

/// Demands the token at `i` to be of kind `tt`; yields the token and the next
/// position.
pub open spec fn spec_mtch(ts: Seq<SpecToken>, i: int, tt: TokenType) -> Result<
    (SpecToken, int),
    SpecParseError,
> {
    if i >= ts.len() {
        Err(SpecParseError::UnexpectedEof)
    } else if ts[i].typ == tt {
        Ok((ts[i], i + 1))
    } else {
        Err(SpecParseError::ExpectedToken { expected: tt, found: ts[i] })
    }
}

/// `Atom := Identifier | IntLiteral`
pub open spec fn spec_parse_atom(ts: Seq<SpecToken>, i: int) -> Result<
    (SpecExpr, int),
    SpecParseError,
> {
    if i >= ts.len() {
        Err(SpecParseError::UnexpectedEof)
    } else if ts[i].typ == TokenType::Identifier {
        Ok((SpecExpr::Var(ts[i].lexeme), i + 1))
    } else if ts[i].typ == TokenType::LiteralInt {
        if literal_ok(ts[i].lexeme) {
            Ok((SpecExpr::Int(digits_val(ts[i].lexeme)), i + 1))
        } else {
            Err(SpecParseError::InvalidLiteral { found: ts[i] })
        }
    } else {
        Err(SpecParseError::UnexpectedToken { found: ts[i] })
    }
}

/// A multiplicative-tier operator: `*` or `/`.
pub open spec fn spec_parse_factor_op(ts: Seq<SpecToken>, i: int) -> Result<
    (BinOp, int),
    SpecParseError,
> {
    if i >= ts.len() {
        Err(SpecParseError::UnexpectedEof)
    } else if ts[i].typ == TokenType::Star {
        Ok((BinOp::Mult, i + 1))
    } else if ts[i].typ == TokenType::Slash {
        Ok((BinOp::Div, i + 1))
    } else {
        Err(SpecParseError::UnexpectedToken { found: ts[i] })
    }
}

/// An additive-tier operator: `+` or `-`.
pub open spec fn spec_parse_term_op(ts: Seq<SpecToken>, i: int) -> Result<
    (BinOp, int),
    SpecParseError,
> {
    if i >= ts.len() {
        Err(SpecParseError::UnexpectedEof)
    } else if ts[i].typ == TokenType::Plus {
        Ok((BinOp::Add, i + 1))
    } else if ts[i].typ == TokenType::Minus {
        Ok((BinOp::Sub, i + 1))
    } else {
        Err(SpecParseError::UnexpectedToken { found: ts[i] })
    }
}

/// A relational-tier operator.  `<` and `>` look one token ahead: a following
/// `=` is consumed and makes the operator inclusive; any other token is left
/// in the stream.  `==`, `!=`, `&&` and `||` demand their exact second token.
pub open spec fn spec_parse_rel_op(ts: Seq<SpecToken>, i: int) -> Result<
    (RelOp, int),
    SpecParseError,
> {
    if i >= ts.len() {
        Err(SpecParseError::UnexpectedEof)
    } else if ts[i].typ == TokenType::LeftAngleBracket {
        if i + 1 >= ts.len() {
            Err(SpecParseError::UnexpectedEof)
        } else if ts[i + 1].typ == TokenType::Equals {
            Ok((RelOp::LtEq, i + 2))
        } else {
            Ok((RelOp::Lt, i + 1))
        }
    } else if ts[i].typ == TokenType::RightAngleBracket {
        if i + 1 >= ts.len() {
            Err(SpecParseError::UnexpectedEof)
        } else if ts[i + 1].typ == TokenType::Equals {
            Ok((RelOp::GtEq, i + 2))
        } else {
            Ok((RelOp::Gt, i + 1))
        }
    } else if ts[i].typ == TokenType::Equals {
        if i + 1 >= ts.len() {
            Err(SpecParseError::UnexpectedEof)
        } else if ts[i + 1].typ == TokenType::Equals {
            Ok((RelOp::Eq, i + 2))
        } else {
            Err(SpecParseError::UnexpectedToken { found: ts[i + 1] })
        }
    } else if ts[i].typ == TokenType::Bang {
        if i + 1 >= ts.len() {
            Err(SpecParseError::UnexpectedEof)
        } else if ts[i + 1].typ == TokenType::Equals {
            Ok((RelOp::Neq, i + 2))
        } else {
            Err(SpecParseError::UnexpectedToken { found: ts[i + 1] })
        }
    } else if ts[i].typ == TokenType::Ampersand {
        if i + 1 >= ts.len() {
            Err(SpecParseError::UnexpectedEof)
        } else if ts[i + 1].typ == TokenType::Ampersand {
            Ok((RelOp::And, i + 2))
        } else {
            Err(SpecParseError::UnexpectedToken { found: ts[i + 1] })
        }
    } else if ts[i].typ == TokenType::Bar {
        if i + 1 >= ts.len() {
            Err(SpecParseError::UnexpectedEof)
        } else if ts[i + 1].typ == TokenType::Bar {
            Ok((RelOp::Or, i + 2))
        } else {
            Err(SpecParseError::UnexpectedToken { found: ts[i + 1] })
        }
    } else {
        Err(SpecParseError::UnexpectedToken { found: ts[i] })
    }
}

/// `Factor := Atom (('*'|'/') Atom)*`: the left fold after the first atom.
/// The bounds test on the returned position only serves termination; a
/// successful subparse always advances, so it never fails.
pub open spec fn spec_parse_factor_rest(ts: Seq<SpecToken>, i: int, acc: SpecExpr) -> Result<
    (SpecExpr, int),
    SpecParseError,
>
    decreases ts.len() - i,
{
    match spec_parse_factor_op(ts, i) {
        Err(_) => Ok((acc, i)),
        Ok((op, j)) => match spec_parse_atom(ts, j) {
            Err(e) => Err(e),
            Ok((rhs, k)) => if i < k <= ts.len() {
                spec_parse_factor_rest(
                    ts,
                    k,
                    SpecExpr::BinE { op, l: Box::new(acc), r: Box::new(rhs) },
                )
            } else {
                Err(SpecParseError::UnexpectedEof)
            },
        },
    }
}

/// `Factor := Atom (('*'|'/') Atom)*`
pub open spec fn spec_parse_factor(ts: Seq<SpecToken>, i: int) -> Result<
    (SpecExpr, int),
    SpecParseError,
> {
    match spec_parse_atom(ts, i) {
        Err(e) => Err(e),
        Ok((l, j)) => spec_parse_factor_rest(ts, j, l),
    }
}

/// `Term := Factor (('+'|'-') Factor)*`: the left fold after the first factor.
pub open spec fn spec_parse_term_rest(ts: Seq<SpecToken>, i: int, acc: SpecExpr) -> Result<
    (SpecExpr, int),
    SpecParseError,
>
    decreases ts.len() - i,
{
    match spec_parse_term_op(ts, i) {
        Err(_) => Ok((acc, i)),
        Ok((op, j)) => match spec_parse_factor(ts, j) {
            Err(e) => Err(e),
            Ok((rhs, k)) => if i < k <= ts.len() {
                spec_parse_term_rest(
                    ts,
                    k,
                    SpecExpr::BinE { op, l: Box::new(acc), r: Box::new(rhs) },
                )
            } else {
                Err(SpecParseError::UnexpectedEof)
            },
        },
    }
}

/// `Term := Factor (('+'|'-') Factor)*`
pub open spec fn spec_parse_term(ts: Seq<SpecToken>, i: int) -> Result<
    (SpecExpr, int),
    SpecParseError,
> {
    match spec_parse_factor(ts, i) {
        Err(e) => Err(e),
        Ok((l, j)) => spec_parse_term_rest(ts, j, l),
    }
}

/// `RelExpr := Term (RelOp Term)*`: the left fold after the first term.
pub open spec fn spec_parse_rel_rest(ts: Seq<SpecToken>, i: int, acc: SpecExpr) -> Result<
    (SpecExpr, int),
    SpecParseError,
>
    decreases ts.len() - i,
{
    match spec_parse_rel_op(ts, i) {
        Err(_) => Ok((acc, i)),
        Ok((op, j)) => match spec_parse_term(ts, j) {
            Err(e) => Err(e),
            Ok((rhs, k)) => if i < k <= ts.len() {
                spec_parse_rel_rest(
                    ts,
                    k,
                    SpecExpr::RelE { op, l: Box::new(acc), r: Box::new(rhs) },
                )
            } else {
                Err(SpecParseError::UnexpectedEof)
            },
        },
    }
}

/// `RelExpr := Term (RelOp Term)*`
pub open spec fn spec_parse_rel_expr(ts: Seq<SpecToken>, i: int) -> Result<
    (SpecExpr, int),
    SpecParseError,
> {
    match spec_parse_term(ts, i) {
        Err(e) => Err(e),
        Ok((l, j)) => spec_parse_rel_rest(ts, j, l),
    }
}

/// `Stmt := Assign | AssignUpdate | Return | IfElse`
pub open spec fn spec_parse_stmt(ts: Seq<SpecToken>, i: int) -> Result<
    (SpecStmt, int),
    SpecParseError,
>
    decreases ts.len() - i,
{
    if i >= ts.len() {
        Err(SpecParseError::UnexpectedEof)
    } else if ts[i].typ == TokenType::KeywordTypeInt {
        match spec_mtch(ts, i + 1, TokenType::Identifier) {
            Err(e) => Err(e),
            Ok((idt, j1)) => match spec_mtch(ts, j1, TokenType::Equals) {
                Err(e) => Err(e),
                Ok((_, j2)) => match spec_parse_rel_expr(ts, j2) {
                    Err(e) => Err(e),
                    Ok((expr, j3)) => match spec_mtch(ts, j3, TokenType::PuncSemiColon) {
                        Err(e) => Err(e),
                        Ok((_, j4)) => Ok(
                            (
                                SpecStmt::Asnmt { id: idt.lexeme, expr: Box::new(expr) },
                                j4,
                            ),
                        ),
                    },
                },
            },
        }
    } else if ts[i].typ == TokenType::Identifier {
        if i + 2 >= ts.len() {
            Err(SpecParseError::UnexpectedEof)
        } else if ts[i + 2].typ != TokenType::Equals {
            Err(SpecParseError::UnexpectedToken { found: ts[i + 1] })
        } else {
            let op = if ts[i + 1].typ == TokenType::Plus {
                Some(BinOp::Add)
            } else if ts[i + 1].typ == TokenType::Minus {
                Some(BinOp::Sub)
            } else if ts[i + 1].typ == TokenType::Star {
                Some(BinOp::Mult)
            } else if ts[i + 1].typ == TokenType::Slash {
                Some(BinOp::Div)
            } else {
                None
            };
            match op {
                None => Err(SpecParseError::UnexpectedToken { found: ts[i + 1] }),
                Some(op) => match spec_parse_rel_expr(ts, i + 3) {
                    Err(e) => Err(e),
                    Ok((expr, j1)) => match spec_mtch(ts, j1, TokenType::PuncSemiColon) {
                        Err(e) => Err(e),
                        Ok((_, j2)) => Ok(
                            (SpecStmt::AsnmtUpdate { op, expr: Box::new(expr) }, j2),
                        ),
                    },
                },
            }
        }
    } else if ts[i].typ == TokenType::KeywordRet {
        match spec_parse_rel_expr(ts, i + 1) {
            Err(e) => Err(e),
            Ok((expr, j1)) => match spec_mtch(ts, j1, TokenType::PuncSemiColon) {
                Err(e) => Err(e),
                Ok((_, j2)) => Ok((SpecStmt::Return(expr), j2)),
            },
        }
    } else if ts[i].typ == TokenType::KeywordIf {
        match spec_mtch(ts, i + 1, TokenType::PuncLeftParen) {
            Err(e) => Err(e),
            Ok((_, j1)) => match spec_parse_rel_expr(ts, j1) {
                Err(e) => Err(e),
                Ok((cond, j2)) => match spec_mtch(ts, j2, TokenType::PuncRightParen) {
                    Err(e) => Err(e),
                    Ok((_, j3)) => match spec_mtch(ts, j3, TokenType::PuncLeftBrace) {
                        Err(e) => Err(e),
                        Ok((_, j4)) => if i < j4 <= ts.len() {
                            match spec_parse_stmt(ts, j4) {
                                Err(e) => Err(e),
                                Ok((thn, j5)) => match spec_mtch(
                                    ts,
                                    j5,
                                    TokenType::PuncRightBrace,
                                ) {
                                    Err(e) => Err(e),
                                    Ok((_, j6)) => match spec_mtch(ts, j6, TokenType::KeywordEls) {
                                        Err(e) => Err(e),
                                        Ok((_, j7)) => match spec_mtch(
                                            ts,
                                            j7,
                                            TokenType::PuncLeftBrace,
                                        ) {
                                            Err(e) => Err(e),
                                            Ok((_, j8)) => if i < j8 <= ts.len() {
                                                match spec_parse_stmt(ts, j8) {
                                                    Err(e) => Err(e),
                                                    Ok((els, j9)) => match spec_mtch(
                                                        ts,
                                                        j9,
                                                        TokenType::PuncRightBrace,
                                                    ) {
                                                        Err(e) => Err(e),
                                                        Ok((_, j10)) => Ok(
                                                            (
                                                                SpecStmt::IfEls {
                                                                    cond: Box::new(cond),
                                                                    thn: Box::new(thn),
                                                                    els: Box::new(els),
                                                                },
                                                                j10,
                                                            ),
                                                        ),
                                                    },
                                                }
                                            } else {
                                                Err(SpecParseError::UnexpectedEof)
                                            },
                                        },
                                    },
                                },
                            }
                        } else {
                            Err(SpecParseError::UnexpectedEof)
                        },
                    },
                },
            },
        }
    } else {
        Err(SpecParseError::UnexpectedToken { found: ts[i] })
    }
}

/// `Stmt*`: statements until the first position where none parses.
pub open spec fn spec_parse_stmts(ts: Seq<SpecToken>, i: int) -> (Seq<SpecStmt>, int)
    decreases ts.len() - i,
{
    match spec_parse_stmt(ts, i) {
        Err(_) => (Seq::<SpecStmt>::empty(), i),
        Ok((s, j)) => if i < j <= ts.len() {
            let (rest, k) = spec_parse_stmts(ts, j);
            (seq![s] + rest, k)
        } else {
            (seq![s], j)
        },
    }
}

/// `Function := 'int' 'main' '(' ')' '{' Stmt* '}'`, with nothing after the
/// closing brace.
pub open spec fn spec_parse_function(ts: Seq<SpecToken>) -> Result<
    SpecMainFunction,
    SpecParseError,
> {
    match spec_mtch(ts, 0, TokenType::KeywordTypeInt) {
        Err(e) => Err(e),
        Ok((_, i1)) => match spec_mtch(ts, i1, TokenType::KeywordMain) {
            Err(e) => Err(e),
            Ok((_, i2)) => match spec_mtch(ts, i2, TokenType::PuncLeftParen) {
                Err(e) => Err(e),
                Ok((_, i3)) => match spec_mtch(ts, i3, TokenType::PuncRightParen) {
                    Err(e) => Err(e),
                    Ok((_, i4)) => match spec_mtch(ts, i4, TokenType::PuncLeftBrace) {
                        Err(e) => Err(e),
                        Ok((_, i5)) => {
                            let (stmts, j) = spec_parse_stmts(ts, i5);
                            match spec_mtch(ts, j, TokenType::PuncRightBrace) {
                                Err(e) => Err(e),
                                Ok((_, k)) => if k == ts.len() {
                                    Ok(SpecMainFunction { stmts })
                                } else {
                                    Err(SpecParseError::TrailingTokens)
                                },
                            }
                        },
                    },
                },
            },
        },
    }
}

/// The token stream as a program.
pub open spec fn spec_parse(ts: Seq<SpecToken>) -> Result<SpecProgram, SpecParseError> {
    match spec_parse_function(ts) {
        Err(e) => Err(e),
        Ok(mf) => Ok(SpecProgram { main_function: mf }),
    }
}

/// A copy of a token, equal to the original in the model.
fn clone_token(t: &Token) -> (r: Token)
    ensures
        r.model() == t.model(),
{
    Token { lexeme: t.lexeme.clone(), typ: t.typ }
}

/// Demands the token at `i` to be of kind `tt`.
pub fn mtch(ts: &Vec<Token>, i: usize, tt: TokenType) -> (r: Result<(Token, usize), ParseError>)
    ensures
        (r matches Ok(p) ==> i < ts@.len() && p.1 == i + 1 && spec_mtch(
            tokens_model(ts@),
            i as int,
            tt,
        ) == Ok::<_, SpecParseError>((p.0.model(), p.1 as int))),
        (r matches Err(e) ==> spec_mtch(tokens_model(ts@), i as int, tt) == Err::<
            (SpecToken, int),
            _,
        >(e.model())),
{
    if i >= ts.len() {
        Err(ParseError::UnexpectedEof)
    } else {
        let t = clone_token(&ts[i]);
        if t.typ == tt {
            Ok((t, i + 1))
        } else {
            Err(ParseError::ExpectedToken { expected: tt, found: t })
        }
    }
}

/// `Atom := Identifier | IntLiteral`
pub fn parse_atom(ts: &Vec<Token>, i: usize) -> (r: Result<(Expr, usize), ParseError>)
    ensures
        (r matches Ok(p) ==> i < ts@.len() && p.1 == i + 1 && spec_parse_atom(
            tokens_model(ts@),
            i as int,
        ) == Ok::<_, SpecParseError>((p.0.model(), p.1 as int))),
        (r matches Err(e) ==> spec_parse_atom(tokens_model(ts@), i as int) == Err::<
            (SpecExpr, int),
            _,
        >(e.model())),
{
    if i >= ts.len() {
        return Err(ParseError::UnexpectedEof);
    }
    let t = clone_token(&ts[i]);
    if t.typ == TokenType::Identifier {
        Ok((Expr::Var(Id(t.lexeme)), i + 1))
    } else if t.typ == TokenType::LiteralInt {
        match crate::digits::parse_dec_i128(t.lexeme.as_str()) {
            Some(v) => Ok((Expr::Int(v), i + 1)),
            None => Err(ParseError::InvalidLiteral { found: t }),
        }
    } else {
        Err(ParseError::UnexpectedToken { found: t })
    }
}

/// A multiplicative-tier operator: `*` or `/`.
pub fn parse_factor_op(ts: &Vec<Token>, i: usize) -> (r: Result<(BinOp, usize), ParseError>)
    ensures
        (r matches Ok(p) ==> i < ts@.len() && p.1 == i + 1 && spec_parse_factor_op(
            tokens_model(ts@),
            i as int,
        ) == Ok::<_, SpecParseError>((p.0, p.1 as int))),
        (r matches Err(e) ==> spec_parse_factor_op(tokens_model(ts@), i as int) == Err::<
            (BinOp, int),
            _,
        >(e.model())),
{
    if i >= ts.len() {
        return Err(ParseError::UnexpectedEof);
    }
    let typ = ts[i].typ;
    if typ == TokenType::Star {
        Ok((BinOp::Mult, i + 1))
    } else if typ == TokenType::Slash {
        Ok((BinOp::Div, i + 1))
    } else {
        Err(ParseError::UnexpectedToken { found: clone_token(&ts[i]) })
    }
}

/// An additive-tier operator: `+` or `-`.
pub fn parse_term_op(ts: &Vec<Token>, i: usize) -> (r: Result<(BinOp, usize), ParseError>)
    ensures
        (r matches Ok(p) ==> i < ts@.len() && p.1 == i + 1 && spec_parse_term_op(
            tokens_model(ts@),
            i as int,
        ) == Ok::<_, SpecParseError>((p.0, p.1 as int))),
        (r matches Err(e) ==> spec_parse_term_op(tokens_model(ts@), i as int) == Err::<
            (BinOp, int),
            _,
        >(e.model())),
{
    if i >= ts.len() {
        return Err(ParseError::UnexpectedEof);
    }
    let typ = ts[i].typ;
    if typ == TokenType::Plus {
        Ok((BinOp::Add, i + 1))
    } else if typ == TokenType::Minus {
        Ok((BinOp::Sub, i + 1))
    } else {
        Err(ParseError::UnexpectedToken { found: clone_token(&ts[i]) })
    }
}

/// A relational-tier operator, with one token of lookahead past `<` or `>`:
/// a `=` right after is consumed, anything else is left in the stream.
pub fn parse_rel_op(ts: &Vec<Token>, i: usize) -> (r: Result<(RelOp, usize), ParseError>)
    ensures
        (r matches Ok(p) ==> i < ts@.len() && i < p.1 <= i + 2 && p.1 <= ts@.len()
            && spec_parse_rel_op(tokens_model(ts@), i as int) == Ok::<_, SpecParseError>(
            (p.0, p.1 as int),
        )),
        (r matches Err(e) ==> spec_parse_rel_op(tokens_model(ts@), i as int) == Err::<
            (RelOp, int),
            _,
        >(e.model())),
{
    if i >= ts.len() {
        return Err(ParseError::UnexpectedEof);
    }
    let typ = ts[i].typ;
    if typ == TokenType::LeftAngleBracket {
        if i + 1 >= ts.len() {
            Err(ParseError::UnexpectedEof)
        } else if ts[i + 1].typ == TokenType::Equals {
            Ok((RelOp::LtEq, i + 2))
        } else {
            Ok((RelOp::Lt, i + 1))
        }
    } else if typ == TokenType::RightAngleBracket {
        if i + 1 >= ts.len() {
            Err(ParseError::UnexpectedEof)
        } else if ts[i + 1].typ == TokenType::Equals {
            Ok((RelOp::GtEq, i + 2))
        } else {
            Ok((RelOp::Gt, i + 1))
        }
    } else if typ == TokenType::Equals {
        if i + 1 >= ts.len() {
            Err(ParseError::UnexpectedEof)
        } else if ts[i + 1].typ == TokenType::Equals {
            Ok((RelOp::Eq, i + 2))
        } else {
            Err(ParseError::UnexpectedToken { found: clone_token(&ts[i + 1]) })
        }
    } else if typ == TokenType::Bang {
        if i + 1 >= ts.len() {
            Err(ParseError::UnexpectedEof)
        } else if ts[i + 1].typ == TokenType::Equals {
            Ok((RelOp::Neq, i + 2))
        } else {
            Err(ParseError::UnexpectedToken { found: clone_token(&ts[i + 1]) })
        }
    } else if typ == TokenType::Ampersand {
        if i + 1 >= ts.len() {
            Err(ParseError::UnexpectedEof)
        } else if ts[i + 1].typ == TokenType::Ampersand {
            Ok((RelOp::And, i + 2))
        } else {
            Err(ParseError::UnexpectedToken { found: clone_token(&ts[i + 1]) })
        }
    } else if typ == TokenType::Bar {
        if i + 1 >= ts.len() {
            Err(ParseError::UnexpectedEof)
        } else if ts[i + 1].typ == TokenType::Bar {
            Ok((RelOp::Or, i + 2))
        } else {
            Err(ParseError::UnexpectedToken { found: clone_token(&ts[i + 1]) })
        }
    } else {
        Err(ParseError::UnexpectedToken { found: clone_token(&ts[i]) })
    }
}

/// The left fold of further `* /` atoms onto `acc`.
fn parse_factor_rest(ts: &Vec<Token>, i: usize, acc: Expr) -> (r: Result<
    (Expr, usize),
    ParseError,
>)
    requires
        i <= ts@.len(),
    ensures
        (r matches Ok(p) ==> i <= p.1 <= ts@.len() && spec_parse_factor_rest(
            tokens_model(ts@),
            i as int,
            acc.model(),
        ) == Ok::<_, SpecParseError>((p.0.model(), p.1 as int))),
        (r matches Err(e) ==> spec_parse_factor_rest(tokens_model(ts@), i as int, acc.model())
            == Err::<(SpecExpr, int), _>(e.model())),
    decreases ts@.len() - i,
{
    match parse_factor_op(ts, i) {
        Err(_) => Ok((acc, i)),
        Ok((op, j)) => match parse_atom(ts, j) {
            Err(e) => Err(e),
            Ok((rhs, k)) => parse_factor_rest(
                ts,
                k,
                Expr::BinE { op, l: Box::new(acc), r: Box::new(rhs) },
            ),
        },
    }
}

/// `Factor := Atom (('*'|'/') Atom)*`
pub fn parse_factor(ts: &Vec<Token>, i: usize) -> (r: Result<(Expr, usize), ParseError>)
    ensures
        (r matches Ok(p) ==> i < p.1 <= ts@.len() && spec_parse_factor(
            tokens_model(ts@),
            i as int,
        ) == Ok::<_, SpecParseError>((p.0.model(), p.1 as int))),
        (r matches Err(e) ==> spec_parse_factor(tokens_model(ts@), i as int) == Err::<
            (SpecExpr, int),
            _,
        >(e.model())),
{
    match parse_atom(ts, i) {
        Err(e) => Err(e),
        Ok((l, j)) => parse_factor_rest(ts, j, l),
    }
}

/// The left fold of further `+ -` factors onto `acc`.
fn parse_term_rest(ts: &Vec<Token>, i: usize, acc: Expr) -> (r: Result<(Expr, usize), ParseError>)
    requires
        i <= ts@.len(),
    ensures
        (r matches Ok(p) ==> i <= p.1 <= ts@.len() && spec_parse_term_rest(
            tokens_model(ts@),
            i as int,
            acc.model(),
        ) == Ok::<_, SpecParseError>((p.0.model(), p.1 as int))),
        (r matches Err(e) ==> spec_parse_term_rest(tokens_model(ts@), i as int, acc.model())
            == Err::<(SpecExpr, int), _>(e.model())),
    decreases ts@.len() - i,
{
    match parse_term_op(ts, i) {
        Err(_) => Ok((acc, i)),
        Ok((op, j)) => match parse_factor(ts, j) {
            Err(e) => Err(e),
            Ok((rhs, k)) => parse_term_rest(
                ts,
                k,
                Expr::BinE { op, l: Box::new(acc), r: Box::new(rhs) },
            ),
        },
    }
}

/// `Term := Factor (('+'|'-') Factor)*`
pub fn parse_term(ts: &Vec<Token>, i: usize) -> (r: Result<(Expr, usize), ParseError>)
    ensures
        (r matches Ok(p) ==> i < p.1 <= ts@.len() && spec_parse_term(tokens_model(ts@), i as int)
            == Ok::<_, SpecParseError>((p.0.model(), p.1 as int))),
        (r matches Err(e) ==> spec_parse_term(tokens_model(ts@), i as int) == Err::<
            (SpecExpr, int),
            _,
        >(e.model())),
{
    match parse_factor(ts, i) {
        Err(e) => Err(e),
        Ok((l, j)) => parse_term_rest(ts, j, l),
    }
}

/// The left fold of further relational operators and terms onto `acc`.
fn parse_rel_rest(ts: &Vec<Token>, i: usize, acc: Expr) -> (r: Result<(Expr, usize), ParseError>)
    requires
        i <= ts@.len(),
    ensures
        (r matches Ok(p) ==> i <= p.1 <= ts@.len() && spec_parse_rel_rest(
            tokens_model(ts@),
            i as int,
            acc.model(),
        ) == Ok::<_, SpecParseError>((p.0.model(), p.1 as int))),
        (r matches Err(e) ==> spec_parse_rel_rest(tokens_model(ts@), i as int, acc.model())
            == Err::<(SpecExpr, int), _>(e.model())),
    decreases ts@.len() - i,
{
    match parse_rel_op(ts, i) {
        Err(_) => Ok((acc, i)),
        Ok((op, j)) => match parse_term(ts, j) {
            Err(e) => Err(e),
            Ok((rhs, k)) => parse_rel_rest(
                ts,
                k,
                Expr::RelE { op, l: Box::new(acc), r: Box::new(rhs) },
            ),
        },
    }
}

/// `RelExpr := Term (RelOp Term)*`
pub fn parse_rel_expr(ts: &Vec<Token>, i: usize) -> (r: Result<(Expr, usize), ParseError>)
    ensures
        (r matches Ok(p) ==> i < p.1 <= ts@.len() && spec_parse_rel_expr(
            tokens_model(ts@),
            i as int,
        ) == Ok::<_, SpecParseError>((p.0.model(), p.1 as int))),
        (r matches Err(e) ==> spec_parse_rel_expr(tokens_model(ts@), i as int) == Err::<
            (SpecExpr, int),
            _,
        >(e.model())),
{
    match parse_term(ts, i) {
        Err(e) => Err(e),
        Ok((l, j)) => parse_rel_rest(ts, j, l),
    }
}

/// `Stmt := Assign | AssignUpdate | Return | IfElse`
#[verifier::rlimit(100)]
pub fn parse_stmt(ts: &Vec<Token>, i: usize) -> (r: Result<(Stmt, usize), ParseError>)
    ensures
        (r matches Ok(p) ==> i < p.1 <= ts@.len() && spec_parse_stmt(tokens_model(ts@), i as int)
            == Ok::<_, SpecParseError>((p.0.model(), p.1 as int))),
        (r matches Err(e) ==> spec_parse_stmt(tokens_model(ts@), i as int) == Err::<
            (SpecStmt, int),
            _,
        >(e.model())),
    decreases ts@.len() - i,
{
    if i >= ts.len() {
        return Err(ParseError::UnexpectedEof);
    }
    let typ = ts[i].typ;
    if typ == TokenType::KeywordTypeInt {
        let (idt, j1) = match mtch(ts, i + 1, TokenType::Identifier) {
            Err(e) => {
                return Err(e);
            },
            Ok(p) => p,
        };
        let (_eq, j2) = match mtch(ts, j1, TokenType::Equals) {
            Err(e) => {
                return Err(e);
            },
            Ok(p) => p,
        };
        let (expr, j3) = match parse_rel_expr(ts, j2) {
            Err(e) => {
                return Err(e);
            },
            Ok(p) => p,
        };
        let (_semi, j4) = match mtch(ts, j3, TokenType::PuncSemiColon) {
            Err(e) => {
                return Err(e);
            },
            Ok(p) => p,
        };
        Ok((Stmt::Asnmt { id: Id(idt.lexeme), expr: Box::new(expr) }, j4))
    } else if typ == TokenType::Identifier {
        if ts.len() - i <= 2 {
            return Err(ParseError::UnexpectedEof);
        }
        if ts[i + 2].typ != TokenType::Equals {
            return Err(ParseError::UnexpectedToken { found: clone_token(&ts[i + 1]) });
        }
        let t1 = ts[i + 1].typ;
        let op = if t1 == TokenType::Plus {
            Some(BinOp::Add)
        } else if t1 == TokenType::Minus {
            Some(BinOp::Sub)
        } else if t1 == TokenType::Star {
            Some(BinOp::Mult)
        } else if t1 == TokenType::Slash {
            Some(BinOp::Div)
        } else {
            None
        };
        let op = match op {
            None => {
                return Err(ParseError::UnexpectedToken { found: clone_token(&ts[i + 1]) });
            },
            Some(op) => op,
        };
        let (expr, j1) = match parse_rel_expr(ts, i + 3) {
            Err(e) => {
                return Err(e);
            },
            Ok(p) => p,
        };
        let (_semi, j2) = match mtch(ts, j1, TokenType::PuncSemiColon) {
            Err(e) => {
                return Err(e);
            },
            Ok(p) => p,
        };
        Ok((Stmt::AsnmtUpdate { op, expr: Box::new(expr) }, j2))
    } else if typ == TokenType::KeywordRet {
        let (expr, j1) = match parse_rel_expr(ts, i + 1) {
            Err(e) => {
                return Err(e);
            },
            Ok(p) => p,
        };
        let (_semi, j2) = match mtch(ts, j1, TokenType::PuncSemiColon) {
            Err(e) => {
                return Err(e);
            },
            Ok(p) => p,
        };
        Ok((Stmt::Return(expr), j2))
    } else if typ == TokenType::KeywordIf {
        let (_lp, j1) = match mtch(ts, i + 1, TokenType::PuncLeftParen) {
            Err(e) => {
                return Err(e);
            },
            Ok(p) => p,
        };
        let (cond, j2) = match parse_rel_expr(ts, j1) {
            Err(e) => {
                return Err(e);
            },
            Ok(p) => p,
        };
        let (_rp, j3) = match mtch(ts, j2, TokenType::PuncRightParen) {
            Err(e) => {
                return Err(e);
            },
            Ok(p) => p,
        };
        let (_lb, j4) = match mtch(ts, j3, TokenType::PuncLeftBrace) {
            Err(e) => {
                return Err(e);
            },
            Ok(p) => p,
        };
        let (thn, j5) = match parse_stmt(ts, j4) {
            Err(e) => {
                return Err(e);
            },
            Ok(p) => p,
        };
        let (_rb, j6) = match mtch(ts, j5, TokenType::PuncRightBrace) {
            Err(e) => {
                return Err(e);
            },
            Ok(p) => p,
        };
        let (_els, j7) = match mtch(ts, j6, TokenType::KeywordEls) {
            Err(e) => {
                return Err(e);
            },
            Ok(p) => p,
        };
        let (_lb2, j8) = match mtch(ts, j7, TokenType::PuncLeftBrace) {
            Err(e) => {
                return Err(e);
            },
            Ok(p) => p,
        };
        let (els, j9) = match parse_stmt(ts, j8) {
            Err(e) => {
                return Err(e);
            },
            Ok(p) => p,
        };
        let (_rb2, j10) = match mtch(ts, j9, TokenType::PuncRightBrace) {
            Err(e) => {
                return Err(e);
            },
            Ok(p) => p,
        };
        Ok(
            (
                Stmt::IfEls { cond: Box::new(cond), thn: Box::new(thn), els: Box::new(els) },
                j10,
            ),
        )
    } else {
        Err(ParseError::UnexpectedToken { found: clone_token(&ts[i]) })
    }
}

/// Statements until the first position where none parses.
fn parse_stmts(ts: &Vec<Token>, i: usize) -> (r: (Vec<Stmt>, usize))
    requires
        i <= ts@.len(),
    ensures
        i <= r.1 <= ts@.len(),
        spec_parse_stmts(tokens_model(ts@), i as int) == (stmts_model(r.0@), r.1 as int),
    decreases ts@.len() - i,
{
    match parse_stmt(ts, i) {
        Err(_) => {
            proof {
                assert(stmts_model(Seq::<Stmt>::empty()) =~= Seq::<SpecStmt>::empty());
            }
            (Vec::new(), i)
        },
        Ok((s, j)) => {
            let (rest, k) = parse_stmts(ts, j);
            let ghost rest_seq = rest@;
            let mut v = rest;
            v.insert(0, s);
            proof {
                assert(stmts_model(v@) =~= seq![s.model()] + stmts_model(rest_seq));
            }
            (v, k)
        },
    }
}

/// `Function := 'int' 'main' '(' ')' '{' Stmt* '}'`, with nothing after the
/// closing brace.
pub fn parse_function(ts: &Vec<Token>) -> (r: Result<MainFunction, ParseError>)
    ensures
        (r matches Ok(mf) ==> spec_parse_function(tokens_model(ts@)) == Ok::<_, SpecParseError>(
            mf.model(),
        )),
        (r matches Err(e) ==> spec_parse_function(tokens_model(ts@)) == Err::<
            SpecMainFunction,
            _,
        >(e.model())),
{
    let (_kw, i1) = match mtch(ts, 0, TokenType::KeywordTypeInt) {
        Err(e) => {
            return Err(e);
        },
        Ok(p) => p,
    };
    let (_main, i2) = match mtch(ts, i1, TokenType::KeywordMain) {
        Err(e) => {
            return Err(e);
        },
        Ok(p) => p,
    };
    let (_lp, i3) = match mtch(ts, i2, TokenType::PuncLeftParen) {
        Err(e) => {
            return Err(e);
        },
        Ok(p) => p,
    };
    let (_rp, i4) = match mtch(ts, i3, TokenType::PuncRightParen) {
        Err(e) => {
            return Err(e);
        },
        Ok(p) => p,
    };
    let (_lb, i5) = match mtch(ts, i4, TokenType::PuncLeftBrace) {
        Err(e) => {
            return Err(e);
        },
        Ok(p) => p,
    };
    let (stmts, j) = parse_stmts(ts, i5);
    let (_rb, k) = match mtch(ts, j, TokenType::PuncRightBrace) {
        Err(e) => {
            return Err(e);
        },
        Ok(p) => p,
    };
    if k != ts.len() {
        return Err(ParseError::TrailingTokens);
    }
    Ok(MainFunction { stmts })
}

/// Parses a token stream as a program: on success the statement sequence of
/// the result matches the input's lexical order; otherwise the first defect
/// is reported.
pub fn parse(tokens: Vec<Token>) -> (r: Result<Program, ParseError>)
    ensures
        (r matches Ok(p) ==> spec_parse(tokens_model(tokens@)) == Ok::<_, SpecParseError>(
            p.model(),
        )),
        (r matches Err(e) ==> spec_parse(tokens_model(tokens@)) == Err::<SpecProgram, _>(
            e.model(),
        )),
{
    match parse_function(&tokens) {
        Err(e) => Err(e),
        Ok(main_function) => Ok(Program { main_function }),
    }
}

/// Law: a chain of additive-tier operators folds to the left.  For any
/// identifiers `a`, `b`, `c` and operators `o1`, `o2` drawn from `+` and `-`,
/// the tokens `a o1 b o2 c` parse to `(a o1 b) o2 c`, never to
/// `a o1 (b o2 c)` — which matters for the non-commutative `-`.
pub proof fn lemma_term_tier_left_associative(
    a: SpecToken,
    o1: SpecToken,
    b: SpecToken,
    o2: SpecToken,
    c: SpecToken,
)
    requires
        a.typ == TokenType::Identifier,
        b.typ == TokenType::Identifier,
        c.typ == TokenType::Identifier,
        o1.typ == TokenType::Plus || o1.typ == TokenType::Minus,
        o2.typ == TokenType::Plus || o2.typ == TokenType::Minus,
    ensures
        spec_parse_term(seq![a, o1, b, o2, c], 0) == Ok::<_, SpecParseError>(
            (
                SpecExpr::BinE {
                    op: if o2.typ == TokenType::Plus {
                        BinOp::Add
                    } else {
                        BinOp::Sub
                    },
                    l: Box::new(
                        SpecExpr::BinE {
                            op: if o1.typ == TokenType::Plus {
                                BinOp::Add
                            } else {
                                BinOp::Sub
                            },
                            l: Box::new(SpecExpr::Var(a.lexeme)),
                            r: Box::new(SpecExpr::Var(b.lexeme)),
                        },
                    ),
                    r: Box::new(SpecExpr::Var(c.lexeme)),
                },
                5int,
            ),
        ),
{
    let ts = seq![a, o1, b, o2, c];
    let va = SpecExpr::Var(a.lexeme);
    let vb = SpecExpr::Var(b.lexeme);
    let vc = SpecExpr::Var(c.lexeme);
    let p1 = if o1.typ == TokenType::Plus {
        BinOp::Add
    } else {
        BinOp::Sub
    };
    let p2 = if o2.typ == TokenType::Plus {
        BinOp::Add
    } else {
        BinOp::Sub
    };
    let e1 = SpecExpr::BinE { op: p1, l: Box::new(va), r: Box::new(vb) };
    let e2 = SpecExpr::BinE { op: p2, l: Box::new(e1), r: Box::new(vc) };
    assert(spec_parse_atom(ts, 0) == Ok::<_, SpecParseError>((va, 1int)));
    assert(spec_parse_factor_rest(ts, 1, va) == Ok::<_, SpecParseError>((va, 1int)));
    assert(spec_parse_factor(ts, 0) == Ok::<_, SpecParseError>((va, 1int)));
    assert(spec_parse_term_op(ts, 1) == Ok::<_, SpecParseError>((p1, 2int)));
    assert(spec_parse_atom(ts, 2) == Ok::<_, SpecParseError>((vb, 3int)));
    assert(spec_parse_factor_rest(ts, 3, vb) == Ok::<_, SpecParseError>((vb, 3int)));
    assert(spec_parse_factor(ts, 2) == Ok::<_, SpecParseError>((vb, 3int)));
    assert(spec_parse_term_op(ts, 3) == Ok::<_, SpecParseError>((p2, 4int)));
    assert(spec_parse_atom(ts, 4) == Ok::<_, SpecParseError>((vc, 5int)));
    assert(spec_parse_factor_rest(ts, 5, vc) == Ok::<_, SpecParseError>((vc, 5int)));
    assert(spec_parse_factor(ts, 4) == Ok::<_, SpecParseError>((vc, 5int)));
    assert(spec_parse_term_rest(ts, 5, e2) == Ok::<_, SpecParseError>((e2, 5int)));
    assert(spec_parse_term_rest(ts, 3, e1) == Ok::<_, SpecParseError>((e2, 5int)));
    assert(spec_parse_term_rest(ts, 1, va) == Ok::<_, SpecParseError>((e2, 5int)));
}

/// Law: a chain of multiplicative-tier operators folds to the left.  For any
/// identifiers `a`, `b`, `c` and operators `o1`, `o2` drawn from `*` and `/`,
/// the tokens `a o1 b o2 c` parse to `(a o1 b) o2 c` — which matters for the
/// non-commutative `/`.
pub proof fn lemma_factor_tier_left_associative(
    a: SpecToken,
    o1: SpecToken,
    b: SpecToken,
    o2: SpecToken,
    c: SpecToken,
)
    requires
        a.typ == TokenType::Identifier,
        b.typ == TokenType::Identifier,
        c.typ == TokenType::Identifier,
        o1.typ == TokenType::Star || o1.typ == TokenType::Slash,
        o2.typ == TokenType::Star || o2.typ == TokenType::Slash,
    ensures
        spec_parse_factor(seq![a, o1, b, o2, c], 0) == Ok::<_, SpecParseError>(
            (
                SpecExpr::BinE {
                    op: if o2.typ == TokenType::Star {
                        BinOp::Mult
                    } else {
                        BinOp::Div
                    },
                    l: Box::new(
                        SpecExpr::BinE {
                            op: if o1.typ == TokenType::Star {
                                BinOp::Mult
                            } else {
                                BinOp::Div
                            },
                            l: Box::new(SpecExpr::Var(a.lexeme)),
                            r: Box::new(SpecExpr::Var(b.lexeme)),
                        },
                    ),
                    r: Box::new(SpecExpr::Var(c.lexeme)),
                },
                5int,
            ),
        ),
{
    let ts = seq![a, o1, b, o2, c];
    let va = SpecExpr::Var(a.lexeme);
    let vb = SpecExpr::Var(b.lexeme);
    let vc = SpecExpr::Var(c.lexeme);
    let p1 = if o1.typ == TokenType::Star {
        BinOp::Mult
    } else {
        BinOp::Div
    };
    let p2 = if o2.typ == TokenType::Star {
        BinOp::Mult
    } else {
        BinOp::Div
    };
    let e1 = SpecExpr::BinE { op: p1, l: Box::new(va), r: Box::new(vb) };
    let e2 = SpecExpr::BinE { op: p2, l: Box::new(e1), r: Box::new(vc) };
    assert(spec_parse_atom(ts, 0) == Ok::<_, SpecParseError>((va, 1int)));
    assert(spec_parse_factor_op(ts, 1) == Ok::<_, SpecParseError>((p1, 2int)));
    assert(spec_parse_atom(ts, 2) == Ok::<_, SpecParseError>((vb, 3int)));
    assert(spec_parse_factor_op(ts, 3) == Ok::<_, SpecParseError>((p2, 4int)));
    assert(spec_parse_atom(ts, 4) == Ok::<_, SpecParseError>((vc, 5int)));
    assert(spec_parse_factor_rest(ts, 5, e2) == Ok::<_, SpecParseError>((e2, 5int)));
    assert(spec_parse_factor_rest(ts, 3, e1) == Ok::<_, SpecParseError>((e2, 5int)));
    assert(spec_parse_factor_rest(ts, 1, va) == Ok::<_, SpecParseError>((e2, 5int)));
}

/// The tokens from `i` on are a chain of `k` additive-tier steps, each an
/// operator followed by an identifier, and end the stream.
pub open spec fn term_chain_shape(ts: Seq<SpecToken>, i: int, k: nat) -> bool {
    &&& ts.len() == i + 2 * k
    &&& forall|m: int|
        0 <= m < k ==> (#[trigger] ts[i + 2 * m].typ == TokenType::Plus || ts[i + 2 * m].typ
            == TokenType::Minus) && ts[i + 2 * m + 1].typ == TokenType::Identifier
}

/// The additive operator a token stands for.
pub open spec fn term_op_of(t: SpecToken) -> BinOp {
    if t.typ == TokenType::Plus {
        BinOp::Add
    } else {
        BinOp::Sub
    }
}

/// The left fold of `k` additive-tier steps onto `acc`.
pub open spec fn term_chain_fold(ts: Seq<SpecToken>, i: int, acc: SpecExpr, k: nat) -> SpecExpr
    decreases k,
{
    if k == 0 {
        acc
    } else {
        term_chain_fold(
            ts,
            i + 2,
            SpecExpr::BinE {
                op: term_op_of(ts[i]),
                l: Box::new(acc),
                r: Box::new(SpecExpr::Var(ts[i + 1].lexeme)),
            },
            (k - 1) as nat,
        )
    }
}

proof fn lemma_term_rest_chain(ts: Seq<SpecToken>, i: int, acc: SpecExpr, k: nat)
    requires
        0 <= i,
        term_chain_shape(ts, i, k),
    ensures
        spec_parse_term_rest(ts, i, acc) == Ok::<_, SpecParseError>(
            (term_chain_fold(ts, i, acc, k), ts.len() as int),
        ),
    decreases k,
{
    if k == 0 {
        assert(spec_parse_term_op(ts, i) == Err::<(BinOp, int), _>(SpecParseError::UnexpectedEof));
    } else {
        assert(ts[i] == ts[i + 2 * 0]);
        assert(ts[i + 1] == ts[i + 2 * 0 + 1]);
        let op = term_op_of(ts[i]);
        let rhs = SpecExpr::Var(ts[i + 1].lexeme);
        assert(spec_parse_term_op(ts, i) == Ok::<_, SpecParseError>((op, i + 1)));
        assert(spec_parse_atom(ts, i + 1) == Ok::<_, SpecParseError>((rhs, i + 2)));
        if k == 1 {
            assert(spec_parse_factor_op(ts, i + 2) == Err::<(BinOp, int), _>(
                SpecParseError::UnexpectedEof,
            ));
        } else {
            assert(ts[i + 2 * 1].typ == TokenType::Plus || ts[i + 2 * 1].typ == TokenType::Minus);
            assert(i + 2 * 1 == i + 2);
            assert(ts[i + 2].typ == TokenType::Plus || ts[i + 2].typ == TokenType::Minus);
            assert(spec_parse_factor_op(ts, i + 2) == Err::<(BinOp, int), _>(
                SpecParseError::UnexpectedToken { found: ts[i + 2] },
            ));
        }
        assert(spec_parse_factor_rest(ts, i + 2, rhs) == Ok::<_, SpecParseError>((rhs, i + 2)));
        assert(spec_parse_factor(ts, i + 1) == Ok::<_, SpecParseError>((rhs, i + 2)));
        let folded = SpecExpr::BinE { op, l: Box::new(acc), r: Box::new(rhs) };
        assert forall|m: int| 0 <= m < k - 1 implies (#[trigger] ts[(i + 2) + 2 * m].typ
            == TokenType::Plus || ts[(i + 2) + 2 * m].typ == TokenType::Minus) && ts[(i + 2) + 2 * m
            + 1].typ == TokenType::Identifier by {
            assert((i + 2) + 2 * m == i + 2 * (m + 1));
            assert(ts[i + 2 * (m + 1)].typ == TokenType::Plus || ts[i + 2 * (m + 1)].typ
                == TokenType::Minus);
            assert(ts[i + 2 * (m + 1) + 1].typ == TokenType::Identifier);
        }
        lemma_term_rest_chain(ts, i + 2, folded, (k - 1) as nat);
    }
}

/// Law: a chain of additive-tier operators of any length folds to the left.
/// For identifiers `x0 .. xk` and operators `o1 .. ok` drawn from `+` and
/// `-`, the tokens `x0 o1 x1 o2 x2 ... ok xk` parse to the left-associative
/// tree `(..((x0 o1 x1) o2 x2)..) ok xk` and consume the whole stream.
pub proof fn lemma_term_chain_left_fold(ts: Seq<SpecToken>, k: nat)
    requires
        ts.len() == 1 + 2 * k,
        ts[0].typ == TokenType::Identifier,
        term_chain_shape(ts, 1, k),
    ensures
        spec_parse_term(ts, 0) == Ok::<_, SpecParseError>(
            (term_chain_fold(ts, 1, SpecExpr::Var(ts[0].lexeme), k), ts.len() as int),
        ),
{
    let va = SpecExpr::Var(ts[0].lexeme);
    assert(spec_parse_atom(ts, 0) == Ok::<_, SpecParseError>((va, 1int)));
    if k == 0 {
        assert(spec_parse_factor_op(ts, 1) == Err::<(BinOp, int), _>(
            SpecParseError::UnexpectedEof,
        ));
    } else {
        assert(ts[1] == ts[1int + 2 * 0]);
        assert(ts[1].typ == TokenType::Plus || ts[1].typ == TokenType::Minus);
        assert(spec_parse_factor_op(ts, 1) == Err::<(BinOp, int), _>(
            SpecParseError::UnexpectedToken { found: ts[1] },
        ));
    }
    assert(spec_parse_factor_rest(ts, 1, va) == Ok::<_, SpecParseError>((va, 1int)));
    assert(spec_parse_factor(ts, 0) == Ok::<_, SpecParseError>((va, 1int)));
    lemma_term_rest_chain(ts, 1, va, k);
}

/// The tokens from `i` on are a chain of `k` multiplicative-tier steps, each
/// an operator followed by an identifier, and end the stream.
pub open spec fn factor_chain_shape(ts: Seq<SpecToken>, i: int, k: nat) -> bool {
    &&& ts.len() == i + 2 * k
    &&& forall|m: int|
        0 <= m < k ==> (#[trigger] ts[i + 2 * m].typ == TokenType::Star || ts[i + 2 * m].typ
            == TokenType::Slash) && ts[i + 2 * m + 1].typ == TokenType::Identifier
}

/// The multiplicative operator a token stands for.
pub open spec fn factor_op_of(t: SpecToken) -> BinOp {
    if t.typ == TokenType::Star {
        BinOp::Mult
    } else {
        BinOp::Div
    }
}

/// The left fold of `k` multiplicative-tier steps onto `acc`.
pub open spec fn factor_chain_fold(ts: Seq<SpecToken>, i: int, acc: SpecExpr, k: nat) -> SpecExpr
    decreases k,
{
    if k == 0 {
        acc
    } else {
        factor_chain_fold(
            ts,
            i + 2,
            SpecExpr::BinE {
                op: factor_op_of(ts[i]),
                l: Box::new(acc),
                r: Box::new(SpecExpr::Var(ts[i + 1].lexeme)),
            },
            (k - 1) as nat,
        )
    }
}

proof fn lemma_factor_rest_chain(ts: Seq<SpecToken>, i: int, acc: SpecExpr, k: nat)
    requires
        0 <= i,
        factor_chain_shape(ts, i, k),
    ensures
        spec_parse_factor_rest(ts, i, acc) == Ok::<_, SpecParseError>(
            (factor_chain_fold(ts, i, acc, k), ts.len() as int),
        ),
    decreases k,
{
    if k == 0 {
        assert(spec_parse_factor_op(ts, i) == Err::<(BinOp, int), _>(
            SpecParseError::UnexpectedEof,
        ));
    } else {
        assert(ts[i] == ts[i + 2 * 0]);
        assert(ts[i + 1] == ts[i + 2 * 0 + 1]);
        let op = factor_op_of(ts[i]);
        let rhs = SpecExpr::Var(ts[i + 1].lexeme);
        assert(spec_parse_factor_op(ts, i) == Ok::<_, SpecParseError>((op, i + 1)));
        assert(spec_parse_atom(ts, i + 1) == Ok::<_, SpecParseError>((rhs, i + 2)));
        let folded = SpecExpr::BinE { op, l: Box::new(acc), r: Box::new(rhs) };
        assert forall|m: int| 0 <= m < k - 1 implies (#[trigger] ts[(i + 2) + 2 * m].typ
            == TokenType::Star || ts[(i + 2) + 2 * m].typ == TokenType::Slash) && ts[(i + 2) + 2 * m
            + 1].typ == TokenType::Identifier by {
            assert((i + 2) + 2 * m == i + 2 * (m + 1));
            assert(ts[i + 2 * (m + 1)].typ == TokenType::Star || ts[i + 2 * (m + 1)].typ
                == TokenType::Slash);
            assert(ts[i + 2 * (m + 1) + 1].typ == TokenType::Identifier);
        }
        lemma_factor_rest_chain(ts, i + 2, folded, (k - 1) as nat);
    }
}

/// Law: a chain of multiplicative-tier operators of any length folds to the
/// left.  For identifiers `x0 .. xk` and operators `o1 .. ok` drawn from `*`
/// and `/`, the tokens `x0 o1 x1 o2 x2 ... ok xk` parse to the
/// left-associative tree `(..((x0 o1 x1) o2 x2)..) ok xk` and consume the
/// whole stream.
pub proof fn lemma_factor_chain_left_fold(ts: Seq<SpecToken>, k: nat)
    requires
        ts.len() == 1 + 2 * k,
        ts[0].typ == TokenType::Identifier,
        factor_chain_shape(ts, 1, k),
    ensures
        spec_parse_factor(ts, 0) == Ok::<_, SpecParseError>(
            (factor_chain_fold(ts, 1, SpecExpr::Var(ts[0].lexeme), k), ts.len() as int),
        ),
{
    let va = SpecExpr::Var(ts[0].lexeme);
    assert(spec_parse_atom(ts, 0) == Ok::<_, SpecParseError>((va, 1int)));
    lemma_factor_rest_chain(ts, 1, va, k);
}

/// Law: the multiplicative tier binds tighter than the additive tier.  For
/// any atoms `a`, `b`, `c`, the tokens `a + b * c` (or with `-` and `/`)
/// parse to `a + (b * c)`, never to `(a + b) * c`.
pub proof fn lemma_precedence(
    a: SpecToken,
    o1: SpecToken,
    b: SpecToken,
    o2: SpecToken,
    c: SpecToken,
)
    requires
        a.typ == TokenType::Identifier,
        b.typ == TokenType::Identifier,
        c.typ == TokenType::Identifier,
        o1.typ == TokenType::Plus || o1.typ == TokenType::Minus,
        o2.typ == TokenType::Star || o2.typ == TokenType::Slash,
    ensures
        spec_parse_term(seq![a, o1, b, o2, c], 0) == Ok::<_, SpecParseError>(
            (
                SpecExpr::BinE {
                    op: if o1.typ == TokenType::Plus {
                        BinOp::Add
                    } else {
                        BinOp::Sub
                    },
                    l: Box::new(SpecExpr::Var(a.lexeme)),
                    r: Box::new(
                        SpecExpr::BinE {
                            op: if o2.typ == TokenType::Star {
                                BinOp::Mult
                            } else {
                                BinOp::Div
                            },
                            l: Box::new(SpecExpr::Var(b.lexeme)),
                            r: Box::new(SpecExpr::Var(c.lexeme)),
                        },
                    ),
                },
                5int,
            ),
        ),
{
    let ts = seq![a, o1, b, o2, c];
    let va = SpecExpr::Var(a.lexeme);
    let vb = SpecExpr::Var(b.lexeme);
    let vc = SpecExpr::Var(c.lexeme);
    let p1 = if o1.typ == TokenType::Plus {
        BinOp::Add
    } else {
        BinOp::Sub
    };
    let p2 = if o2.typ == TokenType::Star {
        BinOp::Mult
    } else {
        BinOp::Div
    };
    let em = SpecExpr::BinE { op: p2, l: Box::new(vb), r: Box::new(vc) };
    let e = SpecExpr::BinE { op: p1, l: Box::new(va), r: Box::new(em) };
    assert(spec_parse_atom(ts, 0) == Ok::<_, SpecParseError>((va, 1int)));
    assert(spec_parse_factor_rest(ts, 1, va) == Ok::<_, SpecParseError>((va, 1int)));
    assert(spec_parse_factor(ts, 0) == Ok::<_, SpecParseError>((va, 1int)));
    assert(spec_parse_term_op(ts, 1) == Ok::<_, SpecParseError>((p1, 2int)));
    assert(spec_parse_atom(ts, 2) == Ok::<_, SpecParseError>((vb, 3int)));
    assert(spec_parse_factor_op(ts, 3) == Ok::<_, SpecParseError>((p2, 4int)));
    assert(spec_parse_atom(ts, 4) == Ok::<_, SpecParseError>((vc, 5int)));
    assert(spec_parse_factor_rest(ts, 5, em) == Ok::<_, SpecParseError>((em, 5int)));
    assert(spec_parse_factor_rest(ts, 3, vb) == Ok::<_, SpecParseError>((em, 5int)));
    assert(spec_parse_factor(ts, 2) == Ok::<_, SpecParseError>((em, 5int)));
    assert(spec_parse_term_rest(ts, 5, e) == Ok::<_, SpecParseError>((e, 5int)));
    assert(spec_parse_term_rest(ts, 1, va) == Ok::<_, SpecParseError>((e, 5int)));
}

/// Law: relational operators use one token of lookahead.  After `<` or `>`,
/// a `=` is consumed and yields the inclusive operator; any other token
/// yields the strict operator and is left in the stream (the next position is
/// the examined token's own).
pub proof fn lemma_rel_op_lookahead(ts: Seq<SpecToken>, i: int)
    requires
        0 <= i,
        i + 1 < ts.len(),
    ensures
        ts[i].typ == TokenType::LeftAngleBracket && ts[i + 1].typ == TokenType::Equals
            ==> spec_parse_rel_op(ts, i) == Ok::<_, SpecParseError>((RelOp::LtEq, i + 2)),
        ts[i].typ == TokenType::LeftAngleBracket && ts[i + 1].typ != TokenType::Equals
            ==> spec_parse_rel_op(ts, i) == Ok::<_, SpecParseError>((RelOp::Lt, i + 1)),
        ts[i].typ == TokenType::RightAngleBracket && ts[i + 1].typ == TokenType::Equals
            ==> spec_parse_rel_op(ts, i) == Ok::<_, SpecParseError>((RelOp::GtEq, i + 2)),
        ts[i].typ == TokenType::RightAngleBracket && ts[i + 1].typ != TokenType::Equals
            ==> spec_parse_rel_op(ts, i) == Ok::<_, SpecParseError>((RelOp::Gt, i + 1)),
{
}

/// Law: `return N;` round-trips any integer literal.  For every value `n`
/// that fits an `i128`, a program whose body is `return` followed by the
/// decimal text of `n` parses to exactly one `Return` of the literal `n`.
pub proof fn lemma_parse_return_literal(ts: Seq<SpecToken>, n: int)
    requires
        0 <= n <= i128::MAX,
        ts.len() == 9,
        ts[0].typ == TokenType::KeywordTypeInt,
        ts[1].typ == TokenType::KeywordMain,
        ts[2].typ == TokenType::PuncLeftParen,
        ts[3].typ == TokenType::PuncRightParen,
        ts[4].typ == TokenType::PuncLeftBrace,
        ts[5].typ == TokenType::KeywordRet,
        ts[6].typ == TokenType::LiteralInt,
        ts[6].lexeme == crate::digits::dec_str(n),
        ts[7].typ == TokenType::PuncSemiColon,
        ts[8].typ == TokenType::PuncRightBrace,
    ensures
        spec_parse(ts) == Ok::<_, SpecParseError>(
            SpecProgram {
                main_function: SpecMainFunction {
                    stmts: seq![SpecStmt::Return(SpecExpr::Int(n))],
                },
            },
        ),
{
    crate::digits::lemma_dec_str_val(n);
    assert(literal_ok(ts[6].lexeme));
    let en = SpecExpr::Int(n);
    assert(spec_parse_atom(ts, 6) == Ok::<_, SpecParseError>((en, 7int)));
    assert(spec_parse_factor_rest(ts, 7, en) == Ok::<_, SpecParseError>((en, 7int)));
    assert(spec_parse_factor(ts, 6) == Ok::<_, SpecParseError>((en, 7int)));
    assert(spec_parse_term_rest(ts, 7, en) == Ok::<_, SpecParseError>((en, 7int)));
    assert(spec_parse_term(ts, 6) == Ok::<_, SpecParseError>((en, 7int)));
    assert(spec_parse_rel_rest(ts, 7, en) == Ok::<_, SpecParseError>((en, 7int)));
    assert(spec_parse_rel_expr(ts, 6) == Ok::<_, SpecParseError>((en, 7int)));
    let ret = SpecStmt::Return(en);
    assert(spec_parse_stmt(ts, 5) == Ok::<_, SpecParseError>((ret, 8int)));
    assert(spec_parse_stmt(ts, 8) == Err::<(SpecStmt, int), _>(
        SpecParseError::UnexpectedToken { found: ts[8] },
    ));
    assert(spec_parse_stmts(ts, 8) == (Seq::<SpecStmt>::empty(), 8int));
    assert(spec_parse_stmts(ts, 5) == (seq![ret], 8int)) by {
        assert(seq![ret] + Seq::<SpecStmt>::empty() =~= seq![ret]);
    }
    assert(spec_parse_function(ts) == Ok::<_, SpecParseError>(
        SpecMainFunction { stmts: seq![ret] },
    ));
}

} // verus!
