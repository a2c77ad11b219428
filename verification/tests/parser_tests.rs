use din::lexer::{lex, Token, TokenType};
use din::parser::{parse, BinOp, Expr, Id, ParseError, Program, RelOp, Stmt};

fn parse_str(s: &str) -> Result<Program, ParseError> {
    parse(lex(&s.chars().collect::<Vec<char>>()).unwrap())
}

fn lit(n: i128) -> Box<Expr> {
    Box::new(Expr::Int(n))
}

#[test]
fn parse_return_literal() {
    let tree = parse_str("int main() { return 8; }").unwrap();
    assert_eq!(tree.main_function.stmts, vec![Stmt::Return(Expr::Int(8))]);
}

#[test]
fn parse_addition() {
    let tree = parse_str("int main() { return 9 + 10; }").unwrap();
    assert_eq!(
        tree.main_function.stmts,
        vec![Stmt::Return(Expr::BinE { op: BinOp::Add, l: lit(9), r: lit(10) })]
    );
}

#[test]
fn parse_addition_left_associative() {
    let tree = parse_str("int main() { return 9 + 10 + 11; }").unwrap();
    assert_eq!(
        tree.main_function.stmts,
        vec![Stmt::Return(Expr::BinE {
            op: BinOp::Add,
            l: Box::new(Expr::BinE { op: BinOp::Add, l: lit(9), r: lit(10) }),
            r: lit(11),
        })]
    );
}

#[test]
fn parse_subtraction_left_associative() {
    let tree = parse_str("int main() { return 30 - 9 - 10; }").unwrap();
    assert_eq!(
        tree.main_function.stmts,
        vec![Stmt::Return(Expr::BinE {
            op: BinOp::Sub,
            l: Box::new(Expr::BinE { op: BinOp::Sub, l: lit(30), r: lit(9) }),
            r: lit(10),
        })]
    );
}

#[test]
fn parse_division_left_associative() {
    let tree = parse_str("int main() { return 100 / 10 / 5; }").unwrap();
    assert_eq!(
        tree.main_function.stmts,
        vec![Stmt::Return(Expr::BinE {
            op: BinOp::Div,
            l: Box::new(Expr::BinE { op: BinOp::Div, l: lit(100), r: lit(10) }),
            r: lit(5),
        })]
    );
}

#[test]
fn parse_mult_add_precedence() {
    let tree = parse_str("int main() { return 9 + 10 * 11; }").unwrap();
    assert_eq!(
        tree.main_function.stmts,
        vec![Stmt::Return(Expr::BinE {
            op: BinOp::Add,
            l: lit(9),
            r: Box::new(Expr::BinE { op: BinOp::Mult, l: lit(10), r: lit(11) }),
        })]
    );
}

#[test]
fn parse_mult_add_precedence_multi() {
    let tree = parse_str("int main() { return 9 * 10 + 11 * 12; }").unwrap();
    assert_eq!(
        tree.main_function.stmts,
        vec![Stmt::Return(Expr::BinE {
            op: BinOp::Add,
            l: Box::new(Expr::BinE { op: BinOp::Mult, l: lit(9), r: lit(10) }),
            r: Box::new(Expr::BinE { op: BinOp::Mult, l: lit(11), r: lit(12) }),
        })]
    );
}

#[test]
fn parse_lt_lookahead() {
    let tree = parse_str("int main() { return a < b; }").unwrap();
    assert_eq!(
        tree.main_function.stmts,
        vec![Stmt::Return(Expr::RelE {
            op: RelOp::Lt,
            l: Box::new(Expr::Var(Id(String::from("a")))),
            r: Box::new(Expr::Var(Id(String::from("b")))),
        })]
    );
}

#[test]
fn parse_lteq_lookahead() {
    let tree = parse_str("int main() { return a <= b; }").unwrap();
    assert_eq!(
        tree.main_function.stmts,
        vec![Stmt::Return(Expr::RelE {
            op: RelOp::LtEq,
            l: Box::new(Expr::Var(Id(String::from("a")))),
            r: Box::new(Expr::Var(Id(String::from("b")))),
        })]
    );
}

#[test]
fn parse_gt_gteq_lookahead() {
    let strict = parse_str("int main() { return 10 > 9; }").unwrap();
    assert_eq!(
        strict.main_function.stmts,
        vec![Stmt::Return(Expr::RelE { op: RelOp::Gt, l: lit(10), r: lit(9) })]
    );
    let inclusive = parse_str("int main() { return 10 >= 9; }").unwrap();
    assert_eq!(
        inclusive.main_function.stmts,
        vec![Stmt::Return(Expr::RelE { op: RelOp::GtEq, l: lit(10), r: lit(9) })]
    );
}

#[test]
fn parse_eq_neq_and_or() {
    let eq = parse_str("int main() { return 9 == 9; }").unwrap();
    assert_eq!(
        eq.main_function.stmts,
        vec![Stmt::Return(Expr::RelE { op: RelOp::Eq, l: lit(9), r: lit(9) })]
    );
    let neq = parse_str("int main() { return 9 != 10; }").unwrap();
    assert_eq!(
        neq.main_function.stmts,
        vec![Stmt::Return(Expr::RelE { op: RelOp::Neq, l: lit(9), r: lit(10) })]
    );
    let and = parse_str("int main() { return 1 && 1; }").unwrap();
    assert_eq!(
        and.main_function.stmts,
        vec![Stmt::Return(Expr::RelE { op: RelOp::And, l: lit(1), r: lit(1) })]
    );
    let or = parse_str("int main() { return 1 || 1; }").unwrap();
    assert_eq!(
        or.main_function.stmts,
        vec![Stmt::Return(Expr::RelE { op: RelOp::Or, l: lit(1), r: lit(1) })]
    );
}

#[test]
fn parse_assignment() {
    let tree = parse_str("int main() { int x = 8; return x; }").unwrap();
    assert_eq!(
        tree.main_function.stmts,
        vec![
            Stmt::Asnmt { id: Id(String::from("x")), expr: lit(8) },
            Stmt::Return(Expr::Var(Id(String::from("x")))),
        ]
    );
}

#[test]
fn parse_assignment_update() {
    let tree = parse_str("int main() { int n = 0; n += 10; return n; }").unwrap();
    assert_eq!(
        tree.main_function.stmts,
        vec![
            Stmt::Asnmt { id: Id(String::from("n")), expr: lit(0) },
            Stmt::AsnmtUpdate { op: BinOp::Add, expr: lit(10) },
            Stmt::Return(Expr::Var(Id(String::from("n")))),
        ]
    );
}

#[test]
fn parse_if_else() {
    let tree = parse_str("int main() { if (9 < 10) { return 0; } else { return 1; } }").unwrap();
    assert_eq!(
        tree.main_function.stmts,
        vec![Stmt::IfEls {
            cond: Box::new(Expr::RelE { op: RelOp::Lt, l: lit(9), r: lit(10) }),
            thn: Box::new(Stmt::Return(Expr::Int(0))),
            els: Box::new(Stmt::Return(Expr::Int(1))),
        }]
    );
}

#[test]
fn parse_reports_expected_token() {
    // The missing semicolon stops the statement loop, so the function parser
    // demands its closing brace where `return` still stands.
    let err = parse_str("int main() { return 8 }").unwrap_err();
    match err {
        ParseError::ExpectedToken { expected, found } => {
            assert_eq!(expected, TokenType::PuncRightBrace);
            assert_eq!(found.typ, TokenType::KeywordRet);
        }
        other => panic!("unexpected error: {:?}", other),
    }
}

#[test]
fn parse_reports_unexpected_eof() {
    let err = parse_str("int main() { return 8;").unwrap_err();
    assert_eq!(err, ParseError::UnexpectedEof);
}

#[test]
fn parse_reports_trailing_tokens() {
    let err = parse_str("int main() { return 8; } 9").unwrap_err();
    assert_eq!(err, ParseError::TrailingTokens);
}

#[test]
fn parse_reports_invalid_literal() {
    // A literal above `i128::MAX` is rejected where the atom is parsed.
    let tokens = vec![Token {
        lexeme: String::from("200000000000000000000000000000000000000000"),
        typ: TokenType::LiteralInt,
    }];
    let err = din::parser::parse_atom(&tokens, 0).unwrap_err();
    match err {
        ParseError::InvalidLiteral { found } => {
            assert_eq!(found.typ, TokenType::LiteralInt);
        }
        other => panic!("unexpected error: {:?}", other),
    }
    assert!(parse_str("int main() { return 200000000000000000000000000000000000000000; }")
        .is_err());
}

#[test]
fn parse_accepts_i128_max_literal() {
    let tree = parse_str("int main() { return 170141183460469231731687303715884105727; }")
        .unwrap();
    assert_eq!(tree.main_function.stmts, vec![Stmt::Return(Expr::Int(i128::MAX))]);
}

#[test]
fn parse_reports_unrecognizable_statement() {
    let tokens = vec![Token { lexeme: String::from("+"), typ: TokenType::Plus }];
    let err = parse(tokens).unwrap_err();
    match err {
        ParseError::ExpectedToken { expected, found } => {
            assert_eq!(expected, TokenType::KeywordTypeInt);
            assert_eq!(found.typ, TokenType::Plus);
        }
        other => panic!("unexpected error: {:?}", other),
    }
}

#[test]
fn parse_stmt_reports_unexpected_token() {
    // An identifier followed by a pair that is no compound operator.
    let tokens = vec![
        Token { lexeme: String::from("n"), typ: TokenType::Identifier },
        Token { lexeme: String::from("!"), typ: TokenType::Bang },
        Token { lexeme: String::from("="), typ: TokenType::Equals },
        Token { lexeme: String::from("1"), typ: TokenType::LiteralInt },
    ];
    let err = din::parser::parse_stmt(&tokens, 0).unwrap_err();
    match err {
        ParseError::UnexpectedToken { found } => assert_eq!(found.typ, TokenType::Bang),
        other => panic!("unexpected error: {:?}", other),
    }
}

#[test]
fn parse_rel_op_demands_exact_second_token() {
    // `=` must be followed by `=`; the offending token is named.
    let tokens = vec![
        Token { lexeme: String::from("="), typ: TokenType::Equals },
        Token { lexeme: String::from("+"), typ: TokenType::Plus },
    ];
    let err = din::parser::parse_rel_op(&tokens, 0).unwrap_err();
    match err {
        ParseError::UnexpectedToken { found } => assert_eq!(found.typ, TokenType::Plus),
        other => panic!("unexpected error: {:?}", other),
    }
}
