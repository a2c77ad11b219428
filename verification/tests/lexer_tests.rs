use din::lexer::{lex, Token, TokenType};

fn lex_str(s: &str) -> Vec<Token> {
    lex(&s.chars().collect::<Vec<char>>()).unwrap()
}

fn kinds(ts: &[Token]) -> Vec<TokenType> {
    ts.iter().map(|t| t.typ).collect()
}

#[test]
fn lex_return_literal() {
    let ts = lex_str("int main() {\n    return 8;\n}");
    assert_eq!(
        kinds(&ts),
        vec![
            TokenType::KeywordTypeInt,
            TokenType::KeywordMain,
            TokenType::PuncLeftParen,
            TokenType::PuncRightParen,
            TokenType::PuncLeftBrace,
            TokenType::KeywordRet,
            TokenType::LiteralInt,
            TokenType::PuncSemiColon,
            TokenType::PuncRightBrace,
        ]
    );
    assert_eq!(ts[6].lexeme, "8");
}

#[test]
fn lex_addition() {
    let ts = lex_str("return 9 + 10;");
    assert_eq!(
        kinds(&ts),
        vec![
            TokenType::KeywordRet,
            TokenType::LiteralInt,
            TokenType::Plus,
            TokenType::LiteralInt,
            TokenType::PuncSemiColon,
        ]
    );
    assert_eq!(ts[1].lexeme, "9");
    assert_eq!(ts[3].lexeme, "10");
}

#[test]
fn lex_whitespace_insensitive() {
    let compact = lex_str("9+10");
    let spread = lex_str("9 +\n 10");
    assert_eq!(compact, spread);
}

#[test]
fn lex_keywords_and_identifiers() {
    let ts = lex_str("if else return int main x yz");
    assert_eq!(
        kinds(&ts),
        vec![
            TokenType::KeywordIf,
            TokenType::KeywordEls,
            TokenType::KeywordRet,
            TokenType::KeywordTypeInt,
            TokenType::KeywordMain,
            TokenType::Identifier,
            TokenType::Identifier,
        ]
    );
    assert_eq!(ts[5].lexeme, "x");
    assert_eq!(ts[6].lexeme, "yz");
}

#[test]
fn lex_relational_characters() {
    let ts = lex_str("< > = ! & | ( ) { } ; * / -");
    assert_eq!(
        kinds(&ts),
        vec![
            TokenType::LeftAngleBracket,
            TokenType::RightAngleBracket,
            TokenType::Equals,
            TokenType::Bang,
            TokenType::Ampersand,
            TokenType::Bar,
            TokenType::PuncLeftParen,
            TokenType::PuncRightParen,
            TokenType::PuncLeftBrace,
            TokenType::PuncRightBrace,
            TokenType::PuncSemiColon,
            TokenType::Star,
            TokenType::Slash,
            TokenType::Minus,
        ]
    );
}

#[test]
fn lex_identifier_with_digits() {
    let ts = lex_str("x1 9a");
    assert_eq!(
        kinds(&ts),
        vec![TokenType::Identifier, TokenType::LiteralInt, TokenType::Identifier]
    );
    assert_eq!(ts[0].lexeme, "x1");
    assert_eq!(ts[1].lexeme, "9");
    assert_eq!(ts[2].lexeme, "a");
}

#[test]
fn lex_rejects_unscannable_character() {
    let err = lex(&"return #;".chars().collect::<Vec<char>>()).unwrap_err();
    assert_eq!(err.found, '#');
}
