//! The mathematical meaning of scanning: what one step of the tokenizer
//! produces from a character sequence and a starting offset.
use vstd::prelude::*;
use crate::token::{keyword_kind, TokenType};

verus! {

pub open spec fn is_whitespace(c: char) -> bool {
    c == ' ' || c == '\t' || c == '\n' || c == '\r'
}

/// Letters of identifiers: ASCII letters and the underscore. An identifier
/// is a run of these alone, so a digit ends it.
pub open spec fn is_letter(c: char) -> bool {
    ('a' <= c && c <= 'z') || ('A' <= c && c <= 'Z') || c == '_'
}

pub open spec fn is_digit(c: char) -> bool {
    '0' <= c && c <= '9'
}

/// The classes of characters that a scan runs over.
pub enum CharClass {
    Whitespace,
    Letter,
    Digit,
    /// Anything but a double quote: the inside of a string literal.
    NotQuote,
}

pub open spec fn in_class(c: char, class: CharClass) -> bool {
    match class {
        CharClass::Whitespace => is_whitespace(c),
        CharClass::Letter => is_letter(c),
        CharClass::Digit => is_digit(c),
        CharClass::NotQuote => c != '"',
    }
}

/// The end of the maximal run of `class` characters of `s` that starts at `i`.
pub open spec fn run_end(s: Seq<char>, i: int, class: CharClass) -> int
    decreases s.len() - i,
{
    if 0 <= i < s.len() && in_class(s[i], class) {
        run_end(s, i + 1, class)
    } else {
        i
    }
}

/// The kind of a one-character operator or delimiter other than `=` and `!`.
pub open spec fn single_char_kind(c: char) -> Option<TokenType> {
    if c == '+' {
        Some(TokenType::PLUS)
    } else if c == '-' {
        Some(TokenType::MINUS)
    } else if c == '*' {
        Some(TokenType::ASTERISK)
    } else if c == '/' {
        Some(TokenType::SLASH)
    } else if c == '<' {
        Some(TokenType::LT)
    } else if c == '>' {
        Some(TokenType::GT)
    } else if c == ';' {
        Some(TokenType::SEMICOLON)
    } else if c == ',' {
        Some(TokenType::COMMA)
    } else if c == '{' {
        Some(TokenType::LBRACE)
    } else if c == '}' {
        Some(TokenType::RBRACE)
    } else if c == '(' {
        Some(TokenType::LPAREN)
    } else if c == ')' {
        Some(TokenType::RPAREN)
    } else {
        None
    }
}

/// What one scanning step yields: a token's kind and text, and the offset
/// just past what it consumed.
pub struct Lexeme {
    pub kind: TokenType,
    pub text: Seq<char>,
    pub end: int,
}

/// The token that starts `s` at offset `pos`, after the whitespace there.
pub open spec fn scan(s: Seq<char>, pos: int) -> Lexeme {
    let start = run_end(s, pos, CharClass::Whitespace);
    if start >= s.len() {
        Lexeme { kind: TokenType::EOF, text: Seq::empty(), end: start }
    } else {
        let c = s[start];
        if is_letter(c) {
            let e = run_end(s, start, CharClass::Letter);
            Lexeme { kind: keyword_kind(s.subrange(start, e)), text: s.subrange(start, e), end: e }
        } else if is_digit(c) {
            let e = run_end(s, start, CharClass::Digit);
            Lexeme { kind: TokenType::INT, text: s.subrange(start, e), end: e }
        } else if c == '"' {
            let q = run_end(s, start + 1, CharClass::NotQuote);
            if q < s.len() {
                Lexeme { kind: TokenType::STRING, text: s.subrange(start + 1, q), end: q + 1 }
            } else {
                Lexeme {
                    kind: TokenType::UNTERMINATED_STRING,
                    text: s.subrange(start + 1, q),
                    end: q,
                }
            }
        } else if (c == '=' || c == '!') && start + 1 < s.len() && s[start + 1] == '=' {
            Lexeme {
                kind: if c == '=' { TokenType::EQ } else { TokenType::NOT_EQ },
                text: s.subrange(start, start + 2),
                end: start + 2,
            }
        } else {
            Lexeme {
                kind: if c == '=' {
                    TokenType::ASSIGN
                } else if c == '!' {
                    TokenType::BANG
                } else if single_char_kind(c) is Some {
                    single_char_kind(c)->0
                } else {
                    TokenType::ILLEGAL
                },
                text: s.subrange(start, start + 1),
                end: start + 1,
            }
        }
    }
}

/// A run stays inside the sequence, holds only characters of its class, and
/// stops at the first character outside it.
pub proof fn lemma_run_end(s: Seq<char>, i: int, class: CharClass)
    requires
        0 <= i <= s.len(),
    ensures
        i <= run_end(s, i, class) <= s.len(),
        forall|k: int| i <= k < run_end(s, i, class) ==> in_class(#[trigger] s[k], class),
        run_end(s, i, class) < s.len() ==> !in_class(s[run_end(s, i, class)], class),
    decreases s.len() - i,
{
    if i < s.len() && in_class(s[i], class) {
        lemma_run_end(s, i + 1, class);
    }
}

} // verus!
