//! Lexical analysis: turns a character stream into a token stream.
//!
//! Whitespace separates tokens and is otherwise ignored.  Integer literals
//! are maximal digit runs, identifiers are maximal alphanumeric runs starting
//! with a letter (the five keywords are recognised among them), and every
//! operator or punctuation mark is a single character.  The executable lexer
//! is proved equal to the specification-level lexer `spec_lex`.

use vstd::prelude::*;

use crate::digits::is_digit;

verus! {

/// The kind of a token.
#[derive(Copy, Clone, PartialEq, Eq, Structural, Debug)]
pub enum TokenType {
    // introductions (values)
    LiteralInt,
    Identifier,
    // keywords (a closed subset of identifiers)
    KeywordTypeInt,
    KeywordMain,
    KeywordVoid,
    KeywordRet,
    KeywordIf,
    KeywordEls,
    // eliminations (operations)
    Plus,
    Minus,
    Star,
    Slash,
    LeftAngleBracket,
    RightAngleBracket,
    Equals,
    Bang,
    Ampersand,
    Bar,
    // punctuation
    PuncLeftParen,
    PuncRightParen,
    PuncLeftBrace,
    PuncRightBrace,
    PuncSemiColon,
}

/// A token: the text it was scanned from and its kind.
#[derive(Clone, PartialEq, Debug)]
pub struct Token {
    pub lexeme: String,
    pub typ: TokenType,
}

/// The mathematical image of a [`Token`].
pub ghost struct SpecToken {
    pub lexeme: Seq<char>,
    pub typ: TokenType,
}

impl Token {
    /// The token as its mathematical image.
    pub open spec fn model(self) -> SpecToken {
        SpecToken { lexeme: self.lexeme@, typ: self.typ }
    }
}

/// The images of a sequence of tokens.
pub open spec fn tokens_model(ts: Seq<Token>) -> Seq<SpecToken> {
    ts.map_values(|t: Token| t.model())
}

/// A character the lexer cannot scan.
#[derive(Copy, Clone, PartialEq, Eq, Structural, Debug)]
pub struct LexicalError {
    pub found: char,
}

/// ASCII whitespace, the only whitespace the language knows.
pub open spec fn is_space(c: char) -> bool {
    c == ' ' || c == '\t' || c == '\n' || c == '\r'
}

/// An ASCII letter.
pub open spec fn is_alpha(c: char) -> bool {
    (97 <= c as int <= 122) || (65 <= c as int <= 90)
}

/// A character that may continue an identifier.
pub open spec fn is_ident_char(c: char) -> bool {
    is_alpha(c) || is_digit(c)
}

/// Length of the maximal digit run at the head of `s`.
pub open spec fn digit_run_len(s: Seq<char>) -> nat
    decreases s.len(),
{
    if s.len() == 0 || !is_digit(s[0]) {
        0
    } else {
        1 + digit_run_len(s.skip(1))
    }
}

/// Length of the maximal identifier-character run at the head of `s`.
pub open spec fn ident_run_len(s: Seq<char>) -> nat
    decreases s.len(),
{
    if s.len() == 0 || !is_ident_char(s[0]) {
        0
    } else {
        1 + ident_run_len(s.skip(1))
    }
}

/// The kind of an identifier run: one of the five keywords, or an identifier.
pub open spec fn keyword_type(lx: Seq<char>) -> TokenType {
    if lx == "int"@ {
        TokenType::KeywordTypeInt
    } else if lx == "main"@ {
        TokenType::KeywordMain
    } else if lx == "if"@ {
        TokenType::KeywordIf
    } else if lx == "else"@ {
        TokenType::KeywordEls
    } else if lx == "return"@ {
        TokenType::KeywordRet
    } else {
        TokenType::Identifier
    }
}

/// A single-character operator or punctuation mark.
pub open spec fn is_symbol(c: char) -> bool {
    c == '+' || c == '-' || c == '*' || c == '/' || c == '<' || c == '>' || c == '=' || c == '!'
        || c == '&' || c == '|' || c == '(' || c == ')' || c == '{' || c == '}' || c == ';'
}

/// The kind of a single-character token.
pub open spec fn symbol_type(c: char) -> TokenType {
    if c == '+' {
        TokenType::Plus
    } else if c == '-' {
        TokenType::Minus
    } else if c == '*' {
        TokenType::Star
    } else if c == '/' {
        TokenType::Slash
    } else if c == '<' {
        TokenType::LeftAngleBracket
    } else if c == '>' {
        TokenType::RightAngleBracket
    } else if c == '=' {
        TokenType::Equals
    } else if c == '!' {
        TokenType::Bang
    } else if c == '&' {
        TokenType::Ampersand
    } else if c == '|' {
        TokenType::Bar
    } else if c == '(' {
        TokenType::PuncLeftParen
    } else if c == ')' {
        TokenType::PuncRightParen
    } else if c == '{' {
        TokenType::PuncLeftBrace
    } else if c == '}' {
        TokenType::PuncRightBrace
    } else {
        TokenType::PuncSemiColon
    }
}

/// The token stream of a character sequence: whitespace is skipped, digit and
/// identifier runs become one token each, symbols become one token apiece,
/// and any other character is a lexical error.
pub open spec fn spec_lex(s: Seq<char>) -> Result<Seq<SpecToken>, LexicalError>
    decreases s.len(),
    via spec_lex_decreases
{
    if s.len() == 0 {
        Ok(Seq::<SpecToken>::empty())
    } else if is_space(s[0]) {
        spec_lex(s.skip(1))
    } else if is_digit(s[0]) {
        let n = 1 + digit_run_len(s.skip(1));
        match spec_lex(s.skip(n as int)) {
            Ok(rest) => Ok(
                seq![SpecToken { lexeme: s.take(n as int), typ: TokenType::LiteralInt }] + rest,
            ),
            Err(e) => Err(e),
        }
    } else if is_alpha(s[0]) {
        let n = 1 + ident_run_len(s.skip(1));
        let lx = s.take(n as int);
        match spec_lex(s.skip(n as int)) {
            Ok(rest) => Ok(seq![SpecToken { lexeme: lx, typ: keyword_type(lx) }] + rest),
            Err(e) => Err(e),
        }
    } else if is_symbol(s[0]) {
        match spec_lex(s.skip(1)) {
            Ok(rest) => Ok(
                seq![SpecToken { lexeme: seq![s[0]], typ: symbol_type(s[0]) }] + rest,
            ),
            Err(e) => Err(e),
        }
    } else {
        Err(LexicalError { found: s[0] })
    }
}

/// A run never reaches past the end of the sequence.
pub proof fn lemma_digit_run_len_le(s: Seq<char>)
    ensures
        digit_run_len(s) <= s.len(),
    decreases s.len(),
{
    if s.len() > 0 && is_digit(s[0]) {
        lemma_digit_run_len_le(s.skip(1));
    }
}

/// A run never reaches past the end of the sequence.
proof fn lemma_ident_run_len_le(s: Seq<char>)
    ensures
        ident_run_len(s) <= s.len(),
    decreases s.len(),
{
    if s.len() > 0 && is_ident_char(s[0]) {
        lemma_ident_run_len_le(s.skip(1));
    }
}

#[via_fn]
proof fn spec_lex_decreases(s: Seq<char>) {
    if s.len() > 0 && !is_space(s[0]) {
        if is_digit(s[0]) {
            lemma_digit_run_len_le(s.skip(1));
        } else if is_alpha(s[0]) {
            lemma_ident_run_len_le(s.skip(1));
        }
    }
}

/// `digit_run_len` is the unique `n` bounding an all-digit prefix that is
/// either the whole sequence or stops at a non-digit.
pub proof fn lemma_digit_run_len(s: Seq<char>, n: int)
    requires
        0 <= n <= s.len(),
        forall|k: int| 0 <= k < n ==> is_digit(#[trigger] s[k]),
        n == s.len() || !is_digit(s[n]),
    ensures
        digit_run_len(s) == n,
    decreases n,
{
    if n == 0 {
    } else {
        assert(is_digit(s[0]));
        lemma_digit_run_len(s.skip(1), n - 1);
    }
}

/// The analogue of [`lemma_digit_run_len`] for identifier characters.
proof fn lemma_ident_run_len(s: Seq<char>, n: int)
    requires
        0 <= n <= s.len(),
        forall|k: int| 0 <= k < n ==> is_ident_char(#[trigger] s[k]),
        n == s.len() || !is_ident_char(s[n]),
    ensures
        ident_run_len(s) == n,
    decreases n,
{
    if n == 0 {
    } else {
        assert(is_ident_char(s[0]));
        lemma_ident_run_len(s.skip(1), n - 1);
    }
}

/// Scanning is insensitive to the amount and kind of interleaving whitespace:
/// a run of whitespace in front of the input changes nothing.  Applied at
/// every token boundary (the lexer restarts after each token), this says the
/// token stream does not depend on how the tokens are spaced.
pub proof fn lemma_lex_skips_whitespace(w: Seq<char>, s: Seq<char>)
    requires
        forall|i: int| 0 <= i < w.len() ==> is_space(#[trigger] w[i]),
    ensures
        spec_lex(w + s) == spec_lex(s),
    decreases w.len(),
{
    if w.len() == 0 {
        assert(w + s =~= s);
    } else {
        let t = w + s;
        assert(is_space(t[0]));
        assert(t.skip(1) =~= w.skip(1) + s);
        lemma_lex_skips_whitespace(w.skip(1), s);
    }
}

/// Relies on `String` implementing `FromIterator<char>`: collecting an
/// iterator of characters yields a string holding exactly those characters
/// in order.
#[verifier::external_body]
pub(crate) fn chars_to_string(v: &Vec<char>) -> (r: String)
    ensures
        r@ == v@,
{
    v.iter().collect()
}

/// True when the character is an ASCII decimal digit.
pub(crate) fn digit_exec(c: char) -> (b: bool)
    ensures
        b == is_digit(c),
{
    let v = c as u32;
    48 <= v && v <= 57
}

/// True when the character is ASCII whitespace.
pub(crate) fn space_exec(c: char) -> (b: bool)
    ensures
        b == is_space(c),
{
    c == ' ' || c == '\t' || c == '\n' || c == '\r'
}

/// True when the character is an ASCII letter.
fn alpha_exec(c: char) -> (b: bool)
    ensures
        b == is_alpha(c),
{
    let v = c as u32;
    (97 <= v && v <= 122) || (65 <= v && v <= 90)
}

/// The keyword or identifier kind of a scanned identifier run.
fn classify_ident(run: &Vec<char>) -> (t: TokenType)
    ensures
        t == keyword_type(run@),
{
    proof {
        reveal_strlit("int");
        reveal_strlit("main");
        reveal_strlit("if");
        reveal_strlit("else");
        reveal_strlit("return");
    }
    if run.len() == 3 && run[0] == 'i' && run[1] == 'n' && run[2] == 't' {
        proof {
            assert(run@ =~= "int"@);
        }
        TokenType::KeywordTypeInt
    } else if run.len() == 4 && run[0] == 'm' && run[1] == 'a' && run[2] == 'i' && run[3] == 'n' {
        proof {
            assert(run@ =~= "main"@);
        }
        TokenType::KeywordMain
    } else if run.len() == 2 && run[0] == 'i' && run[1] == 'f' {
        proof {
            assert(run@ =~= "if"@);
        }
        TokenType::KeywordIf
    } else if run.len() == 4 && run[0] == 'e' && run[1] == 'l' && run[2] == 's' && run[3] == 'e' {
        proof {
            assert(run@ =~= "else"@);
        }
        TokenType::KeywordEls
    } else if run.len() == 6 && run[0] == 'r' && run[1] == 'e' && run[2] == 't' && run[3] == 'u'
        && run[4] == 'r' && run[5] == 'n' {
        proof {
            assert(run@ =~= "return"@);
        }
        TokenType::KeywordRet
    } else {
        TokenType::Identifier
    }
}

/// The single-character token for a symbol.
fn symbol_token(c: char) -> (t: Token)
    requires
        is_symbol(c),
    ensures
        t.model() == (SpecToken { lexeme: seq![c], typ: symbol_type(c) }),
{
    proof {
        reveal_strlit("+");
        reveal_strlit("-");
        reveal_strlit("*");
        reveal_strlit("/");
        reveal_strlit("<");
        reveal_strlit(">");
        reveal_strlit("=");
        reveal_strlit("!");
        reveal_strlit("&");
        reveal_strlit("|");
        reveal_strlit("(");
        reveal_strlit(")");
        reveal_strlit("{");
        reveal_strlit("}");
        reveal_strlit(";");
    }
    let (lexeme, typ): (&'static str, TokenType) = if c == '+' {
        ("+", TokenType::Plus)
    } else if c == '-' {
        ("-", TokenType::Minus)
    } else if c == '*' {
        ("*", TokenType::Star)
    } else if c == '/' {
        ("/", TokenType::Slash)
    } else if c == '<' {
        ("<", TokenType::LeftAngleBracket)
    } else if c == '>' {
        (">", TokenType::RightAngleBracket)
    } else if c == '=' {
        ("=", TokenType::Equals)
    } else if c == '!' {
        ("!", TokenType::Bang)
    } else if c == '&' {
        ("&", TokenType::Ampersand)
    } else if c == '|' {
        ("|", TokenType::Bar)
    } else if c == '(' {
        ("(", TokenType::PuncLeftParen)
    } else if c == ')' {
        (")", TokenType::PuncRightParen)
    } else if c == '{' {
        ("{", TokenType::PuncLeftBrace)
    } else if c == '}' {
        ("}", TokenType::PuncRightBrace)
    } else {
        (";", TokenType::PuncSemiColon)
    };
    proof {
        assert(lexeme@ =~= seq![c]);
    }
    Token { lexeme: String::from_str(lexeme), typ }
}

/// Copies `input[from .. to]` into a fresh vector.
fn copy_range(input: &[char], from: usize, to: usize) -> (r: Vec<char>)
    requires
        from <= to <= input@.len(),
    ensures
        r@ == input@.subrange(from as int, to as int),
{
    let mut r: Vec<char> = Vec::new();
    let mut k = from;
    while k < to
        invariant
            from <= k <= to <= input@.len(),
            r@ == input@.subrange(from as int, k as int),
        decreases to - k,
    {
        r.push(input[k]);
        proof {
            assert(r@ =~= input@.subrange(from as int, k + 1));
        }
        k = k + 1;
    }
    r
}

/// Scans the tokens of `input` from position `i` on.
fn lex_from(input: &[char], i: usize) -> (r: Result<Vec<Token>, LexicalError>)
    requires
        i <= input@.len(),
    ensures
        (r matches Ok(v) ==> spec_lex(input@.skip(i as int)) == Ok::<_, LexicalError>(
            tokens_model(v@),
        )),
        (r matches Err(e) ==> spec_lex(input@.skip(i as int)) == Err::<Seq<SpecToken>, _>(e)),
    decreases input@.len() - i,
{
    let ghost t = input@.skip(i as int);
    if i == input.len() {
        proof {
            assert(t =~= Seq::<char>::empty());
            assert(tokens_model(Seq::<Token>::empty()) =~= Seq::<SpecToken>::empty());
        }
        return Ok(Vec::new());
    }
    let c = input[i];
    proof {
        assert(t[0] == c);
    }
    if space_exec(c) {
        let r = lex_from(input, i + 1);
        proof {
            assert(t.skip(1) =~= input@.skip(i + 1));
        }
        r
    } else if digit_exec(c) {
        let mut j = i + 1;
        while j < input.len() && digit_exec(input[j])
            invariant
                i < j <= input@.len(),
                forall|k: int| i < k < j ==> is_digit(#[trigger] input@[k]),
            decreases input@.len() - j,
        {
            j = j + 1;
        }
        proof {
            assert(forall|k: int| 0 <= k < j - i - 1 ==> is_digit(#[trigger] t.skip(1)[k]));
            lemma_digit_run_len(t.skip(1), j - i - 1);
            assert(t.take(j - i) =~= input@.subrange(i as int, j as int));
            assert(t.skip(j - i) =~= input@.skip(j as int));
        }
        let run = copy_range(input, i, j);
        let lexeme = chars_to_string(&run);
        let tok = Token { lexeme, typ: TokenType::LiteralInt };
        match lex_from(input, j) {
            Ok(rest) => {
                let ghost rest_seq = rest@;
                let mut v = rest;
                v.insert(0, tok);
                proof {
                    assert(tokens_model(v@) =~= seq![tok.model()] + tokens_model(rest_seq));
                }
                Ok(v)
            },
            Err(e) => Err(e),
        }
    } else if alpha_exec(c) {
        let mut j = i + 1;
        while j < input.len() && (alpha_exec(input[j]) || digit_exec(input[j]))
            invariant
                i < j <= input@.len(),
                forall|k: int| i < k < j ==> is_ident_char(#[trigger] input@[k]),
            decreases input@.len() - j,
        {
            j = j + 1;
        }
        proof {
            assert(forall|k: int| 0 <= k < j - i - 1 ==> is_ident_char(#[trigger] t.skip(1)[k]));
            lemma_ident_run_len(t.skip(1), j - i - 1);
            assert(t.take(j - i) =~= input@.subrange(i as int, j as int));
            assert(t.skip(j - i) =~= input@.skip(j as int));
        }
        let run = copy_range(input, i, j);
        let typ = classify_ident(&run);
        let lexeme = chars_to_string(&run);
        let tok = Token { lexeme, typ };
        match lex_from(input, j) {
            Ok(rest) => {
                let ghost rest_seq = rest@;
                let mut v = rest;
                v.insert(0, tok);
                proof {
                    assert(tokens_model(v@) =~= seq![tok.model()] + tokens_model(rest_seq));
                }
                Ok(v)
            },
            Err(e) => Err(e),
        }
    } else if c == '+' || c == '-' || c == '*' || c == '/' || c == '<' || c == '>' || c == '='
        || c == '!' || c == '&' || c == '|' || c == '(' || c == ')' || c == '{' || c == '}'
        || c == ';' {
        let tok = symbol_token(c);
        proof {
            assert(t.skip(1) =~= input@.skip(i + 1));
        }
        match lex_from(input, i + 1) {
            Ok(rest) => {
                let ghost rest_seq = rest@;
                let mut v = rest;
                v.insert(0, tok);
                proof {
                    assert(tokens_model(v@) =~= seq![tok.model()] + tokens_model(rest_seq));
                }
                Ok(v)
            },
            Err(e) => Err(e),
        }
    } else {
        Err(LexicalError { found: c })
    }
}

/// Scans the whole character stream into tokens, or reports the first
/// character that belongs to no token.
pub fn lex(input: &[char]) -> (r: Result<Vec<Token>, LexicalError>)
    ensures
        (r matches Ok(v) ==> spec_lex(input@) == Ok::<_, LexicalError>(tokens_model(v@))),
        (r matches Err(e) ==> spec_lex(input@) == Err::<Seq<SpecToken>, _>(e)),
{
    let r = lex_from(input, 0);
    proof {
        assert(input@.skip(0) =~= input@);
    }
    r
}

} // verus!
