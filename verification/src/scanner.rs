//! The arithmetic scanner: an earlier, smaller lexer over owned character
//! vectors.  It knows integer literals, the four arithmetic operators, and
//! whitespace; any other character becomes a placeholder token.  The
//! executable scanner is proved equal to the specification-level scanner
//! `spec_scan`.

use vstd::prelude::*;

use crate::digits::is_digit;
use crate::lexer::digit_run_len;
use crate::lexer::digit_exec;
use crate::lexer::is_space;
use crate::lexer::lemma_digit_run_len;
use crate::lexer::lemma_digit_run_len_le;
use crate::lexer::space_exec;

verus! {

/// The kind of a token.
#[derive(PartialEq, Debug)]
pub enum Category {
    // introductions (values)
    LiteralInt,
    Identifier,
    // eliminations (operations)
    Plus,
    Minus,
    Star,
    Slash,
    // punctuation
    LeftParen,
    RightParen,
    LeftBrace,
    RightBrace,
    SemiColon,
    // keywords
    ReturnInt,
    Void,
    Return,
}

/// A token: the text it was scanned from, if any, and its kind.
#[derive(PartialEq, Debug)]
pub struct Token {
    pub lexeme: Option<String>,
    pub category: Category,
}

/// The mathematical image of a [`Token`].
pub ghost struct SpecScanToken {
    pub lexeme: Option<Seq<char>>,
    pub category: Category,
}

impl Token {
    /// The token as its mathematical image.
    pub open spec fn model(self) -> SpecScanToken {
        SpecScanToken {
            lexeme: match self.lexeme {
                Some(s) => Some(s@),
                None => None,
            },
            category: self.category,
        }
    }
}

/// The images of a sequence of tokens.
pub open spec fn scan_model(ts: Seq<Token>) -> Seq<SpecScanToken> {
    ts.map_values(|t: Token| t.model())
}

/// The scanner.
#[derive(Default)]
pub struct Scanner {}

/// The sequence with its leading whitespace removed.
pub open spec fn spec_skip_ws(s: Seq<char>) -> Seq<char>
    decreases s.len(),
{
    if s.len() == 0 {
        s
    } else if is_space(s[0]) {
        spec_skip_ws(s.skip(1))
    } else {
        s
    }
}

/// The token stream of a character sequence: whitespace is skipped, digit
/// runs become one literal token each, the four operators one token apiece,
/// and any other character a placeholder token.
pub open spec fn spec_scan(s: Seq<char>) -> Seq<SpecScanToken>
    decreases s.len(),
    via spec_scan_decreases
{
    if s.len() == 0 {
        Seq::<SpecScanToken>::empty()
    } else if is_space(s[0]) {
        spec_scan(s.skip(1))
    } else if is_digit(s[0]) {
        let n = 1 + digit_run_len(s.skip(1));
        seq![
            SpecScanToken { lexeme: Some(s.take(n as int)), category: Category::LiteralInt },
        ] + spec_scan(s.skip(n as int))
    } else if s[0] == '+' {
        seq![SpecScanToken { lexeme: Some("+"@), category: Category::Plus }] + spec_scan(
            s.skip(1),
        )
    } else if s[0] == '-' {
        seq![SpecScanToken { lexeme: Some("-"@), category: Category::Minus }] + spec_scan(
            s.skip(1),
        )
    } else if s[0] == '*' {
        seq![SpecScanToken { lexeme: Some("*"@), category: Category::Star }] + spec_scan(
            s.skip(1),
        )
    } else if s[0] == '/' {
        seq![SpecScanToken { lexeme: Some("/"@), category: Category::Slash }] + spec_scan(
            s.skip(1),
        )
    } else {
        seq![SpecScanToken { lexeme: Some("PANIC?"@), category: Category::Plus }] + spec_scan(
            s.skip(1),
        )
    }
}

#[via_fn]
proof fn spec_scan_decreases(s: Seq<char>) {
    if s.len() > 0 && !is_space(s[0]) && is_digit(s[0]) {
        lemma_digit_run_len_le(s.skip(1));
    }
}

/// Skipping whitespace removes exactly the whitespace prefix.
proof fn lemma_skip_ws_at(s: Seq<char>, k: int)
    requires
        0 <= k <= s.len(),
        forall|i: int| 0 <= i < k ==> is_space(#[trigger] s[i]),
        k == s.len() || !is_space(s[k]),
    ensures
        spec_skip_ws(s) == s.skip(k),
    decreases k,
{
    if k == 0 {
        assert(s.skip(0) =~= s);
    } else {
        assert(is_space(s[0]));
        assert(forall|i: int| 0 <= i < k - 1 ==> is_space(#[trigger] s.skip(1)[i]));
        lemma_skip_ws_at(s.skip(1), k - 1);
        assert(s.skip(1).skip(k - 1) =~= s.skip(k));
    }
}

/// What whitespace skipping leaves never starts with whitespace.
proof fn lemma_skip_ws_head(s: Seq<char>)
    ensures
        spec_skip_ws(s).len() == 0 || !is_space(spec_skip_ws(s)[0]),
    decreases s.len(),
{
    if s.len() > 0 && is_space(s[0]) {
        lemma_skip_ws_head(s.skip(1));
    }
}

/// Scanning is insensitive to leading whitespace skipped in one step.
proof fn lemma_scan_of_skip_ws(s: Seq<char>)
    ensures
        spec_scan(spec_skip_ws(s)) == spec_scan(s),
    decreases s.len(),
{
    if s.len() > 0 && is_space(s[0]) {
        lemma_scan_of_skip_ws(s.skip(1));
    }
}

/// Scanning is insensitive to the amount and kind of interleaving
/// whitespace: a run of whitespace in front of the input changes nothing,
/// and the scanner restarts after every token.
pub proof fn lemma_scan_skips_whitespace(w: Seq<char>, s: Seq<char>)
    requires
        forall|i: int| 0 <= i < w.len() ==> is_space(#[trigger] w[i]),
    ensures
        spec_scan(w + s) == spec_scan(s),
    decreases w.len(),
{
    if w.len() == 0 {
        assert(w + s =~= s);
    } else {
        let t = w + s;
        assert(is_space(t[0]));
        assert(t.skip(1) =~= w.skip(1) + s);
        lemma_scan_skips_whitespace(w.skip(1), s);
    }
}

/// Copies `v[from ..]` into a fresh vector.
fn tail_from(v: &Vec<char>, from: usize) -> (r: Vec<char>)
    requires
        from <= v@.len(),
    ensures
        r@ == v@.skip(from as int),
{
    let mut r: Vec<char> = Vec::new();
    let mut k = from;
    while k < v.len()
        invariant
            from <= k <= v@.len(),
            r@ == v@.subrange(from as int, k as int),
        decreases v@.len() - k,
    {
        r.push(v[k]);
        proof {
            assert(r@ =~= v@.subrange(from as int, k + 1));
        }
        k = k + 1;
    }
    proof {
        assert(r@ =~= v@.skip(from as int));
    }
    r
}

impl Scanner {
    /// Removes leading whitespace.
    pub fn skip_whitespace(input: Vec<char>) -> (r: Vec<char>)
        ensures
            r@ == spec_skip_ws(input@),
            r@.len() <= input@.len(),
    {
        let mut k: usize = 0;
        while k < input.len() && space_exec(input[k])
            invariant
                0 <= k <= input@.len(),
                forall|i: int| 0 <= i < k ==> is_space(#[trigger] input@[i]),
            decreases input@.len() - k,
        {
            k = k + 1;
        }
        proof {
            lemma_skip_ws_at(input@, k as int);
        }
        tail_from(&input, k)
    }

    /// Scans a literal run at the head of the stream, which must be empty or
    /// start with a digit once whitespace is gone, then the rest.
    pub fn scan_int(input: Vec<char>) -> (r: Vec<Token>)
        requires
            spec_skip_ws(input@).len() == 0 || is_digit(spec_skip_ws(input@)[0]),
        ensures
            scan_model(r@) == spec_scan(input@),
        decreases input@.len(), 0nat,
    {
        let ghost orig = input@;
        let cs = Scanner::skip_whitespace(input);
        proof {
            lemma_scan_of_skip_ws(orig);
            lemma_skip_ws_head(orig);
        }
        if cs.len() == 0 {
            proof {
                assert(scan_model(Seq::<Token>::empty()) =~= Seq::<SpecScanToken>::empty());
            }
            return Vec::new();
        }
        let ghost t = cs@;
        let mut j: usize = 1;
        while j < cs.len() && digit_exec(cs[j])
            invariant
                1 <= j <= cs@.len(),
                is_digit(cs@[0]),
                forall|k: int| 0 < k < j ==> is_digit(#[trigger] cs@[k]),
            decreases cs@.len() - j,
        {
            j = j + 1;
        }
        proof {
            assert(forall|k: int| 0 <= k < j - 1 ==> is_digit(#[trigger] t.skip(1)[k]));
            lemma_digit_run_len(t.skip(1), j - 1);
            assert(t.take(j as int) =~= cs@.subrange(0, j as int));
        }
        let mut lex_run: Vec<char> = Vec::new();
        let mut k: usize = 0;
        while k < j
            invariant
                0 <= k <= j <= cs@.len(),
                lex_run@ == cs@.subrange(0, k as int),
            decreases j - k,
        {
            lex_run.push(cs[k]);
            proof {
                assert(lex_run@ =~= cs@.subrange(0, k + 1));
            }
            k = k + 1;
        }
        let tok = Token {
            lexeme: Some(crate::lexer::chars_to_string(&lex_run)),
            category: Category::LiteralInt,
        };
        let rest = tail_from(&cs, j);
        let rest_tokens = Scanner::scan(rest);
        let ghost rest_seq = rest_tokens@;
        let mut v = rest_tokens;
        v.insert(0, tok);
        proof {
            assert(scan_model(v@) =~= seq![tok.model()] + scan_model(rest_seq));
        }
        v
    }

    /// Scans the whole character stream into tokens.
    pub fn scan(input: Vec<char>) -> (r: Vec<Token>)
        ensures
            scan_model(r@) == spec_scan(input@),
        decreases input@.len(), 1nat,
    {
        let ghost orig = input@;
        let cs = Scanner::skip_whitespace(input);
        proof {
            lemma_scan_of_skip_ws(orig);
            lemma_skip_ws_head(orig);
        }
        if cs.len() == 0 {
            proof {
                assert(scan_model(Seq::<Token>::empty()) =~= Seq::<SpecScanToken>::empty());
            }
            return Vec::new();
        }
        let c = cs[0];
        let ghost t = cs@;
        if digit_exec(c) {
            proof {
                assert(spec_skip_ws(t) == t);
            }
            return Scanner::scan_int(cs);
        }
        let tok: Token = if c == '+' {
            Token { lexeme: Some(String::from_str("+")), category: Category::Plus }
        } else if c == '-' {
            Token { lexeme: Some(String::from_str("-")), category: Category::Minus }
        } else if c == '*' {
            Token { lexeme: Some(String::from_str("*")), category: Category::Star }
        } else if c == '/' {
            Token { lexeme: Some(String::from_str("/")), category: Category::Slash }
        } else {
            Token { lexeme: Some(String::from_str("PANIC?")), category: Category::Plus }
        };
        let rest = tail_from(&cs, 1);
        let rest_tokens = Scanner::scan(rest);
        let ghost rest_seq = rest_tokens@;
        let mut v = rest_tokens;
        v.insert(0, tok);
        proof {
            assert(scan_model(v@) =~= seq![tok.model()] + scan_model(rest_seq));
        }
        v
    }
}

} // verus!
