//! The tokenizer: a cursor over an owned input, advanced one token per call.
use vstd::prelude::*;
use crate::model::{is_digit, is_letter, lemma_run_end, run_end, scan, CharClass};
use crate::token::{Token, TokenType};
use vstd::std_specs::iter::IteratorSpec;

verus! {

/// The character at offset `i` of `s`, or NUL past its end.
pub open spec fn char_at(s: Seq<char>, i: int) -> char {
    if 0 <= i < s.len() {
        s[i]
    } else {
        '\0'
    }
}

/// Cursor state over an owned input.
pub struct Lexer {
    input: String,
    /// The characters of `input`, decoded once.
    chars: Vec<char>,
    /// Offset of the character under examination.
    position: usize,
    /// The character under examination, NUL at the end of input.
    ch: char,
}

impl Lexer {
    /// The input, as characters.
    pub closed spec fn text(&self) -> Seq<char> {
        self.input@
    }

    /// The offset of the cursor.
    pub closed spec fn cursor(&self) -> int {
        self.position as int
    }

    /// The cursor's invariant: the decoded characters match the input, the
    /// offset is within it, and the current character is the one at the offset.
    pub closed spec fn wf(&self) -> bool {
        &&& self.chars@ == self.input@
        &&& self.position <= self.chars.len()
        &&& self.ch == char_at(self.input@, self.position as int)
    }

    /// A tokenizer over `input`, its cursor on the first character.
    pub fn new(input: String) -> (lx: Lexer)
        ensures
            lx.wf(),
            lx.text() == input@,
            lx.cursor() == 0,
    {
        let mut chars: Vec<char> = Vec::new();
        let mut it = input.as_str().chars();
        loop
            invariant
                chars@ + it.remaining() == input@,
                it.decrease() is Some,
            ensures
                chars@ == input@,
            decreases it.decrease()->0,
        {
            match it.next() {
                Some(c) => chars.push(c),
                None => {
                    assert(chars@ =~= input@);
                    break;
                },
            }
        }
        let ch = if chars.len() > 0 {
            chars[0]
        } else {
            '\0'
        };
        Lexer { input, chars, position: 0, ch }
    }

    fn read_char(&mut self)
        requires
            old(self).wf(),
            old(self).position < old(self).chars.len(),
        ensures
            final(self).wf(),
            final(self).input@ == old(self).input@,
            final(self).position == old(self).position + 1,
    {
        self.position = self.position + 1;
        if self.position < self.chars.len() {
            self.ch = self.chars[self.position];
        } else {
            self.ch = '\0';
        }
    }

    fn skip_white_space(&mut self)
        requires
            old(self).wf(),
        ensures
            final(self).wf(),
            final(self).input@ == old(self).input@,
            final(self).position == run_end(
                old(self).input@,
                old(self).position as int,
                CharClass::Whitespace,
            ),
    {
        let ghost s = self.input@;
        let ghost p0 = self.position as int;
        while self.ch == ' ' || self.ch == '\t' || self.ch == '\n' || self.ch == '\r'
            invariant
                self.wf(),
                self.input@ == s,
                run_end(s, self.position as int, CharClass::Whitespace) == run_end(
                    s,
                    p0,
                    CharClass::Whitespace,
                ),
            decreases self.chars.len() - self.position,
        {
            self.read_char();
        }
    }

    fn peek_char(&self) -> (c: char)
        requires
            self.wf(),
        ensures
            c == char_at(self.input@, self.position + 1),
    {
        if self.position < self.chars.len() && self.position + 1 < self.chars.len() {
            self.chars[self.position + 1]
        } else {
            '\0'
        }
    }

    fn read_identifier(&mut self) -> (r: String)
        requires
            old(self).wf(),
        ensures
            final(self).wf(),
            final(self).input@ == old(self).input@,
            final(self).position == run_end(
                old(self).input@,
                old(self).position as int,
                CharClass::Letter,
            ),
            r@ == old(self).input@.subrange(old(self).position as int, final(self).position as int),
    {
        let ghost s = self.input@;
        let pos = self.position;
        while self.is_letter(self.ch)
            invariant
                self.wf(),
                self.input@ == s,
                pos <= self.position,
                run_end(s, self.position as int, CharClass::Letter) == run_end(
                    s,
                    pos as int,
                    CharClass::Letter,
                ),
            decreases self.chars.len() - self.position,
        {
            self.read_char();
        }
        String::from_str(self.input.as_str().substring_char(pos, self.position))
    }

    fn read_number(&mut self) -> (r: String)
        requires
            old(self).wf(),
        ensures
            final(self).wf(),
            final(self).input@ == old(self).input@,
            final(self).position == run_end(
                old(self).input@,
                old(self).position as int,
                CharClass::Digit,
            ),
            r@ == old(self).input@.subrange(old(self).position as int, final(self).position as int),
    {
        let ghost s = self.input@;
        let pos = self.position;
        while self.is_digit(self.ch)
            invariant
                self.wf(),
                self.input@ == s,
                pos <= self.position,
                run_end(s, self.position as int, CharClass::Digit) == run_end(
                    s,
                    pos as int,
                    CharClass::Digit,
                ),
            decreases self.chars.len() - self.position,
        {
            self.read_char();
        }
        String::from_str(self.input.as_str().substring_char(pos, self.position))
    }

    /// Reads the inside of a string literal whose opening quote is under the
    /// cursor, stopping on the closing quote or at the end of input.
    fn read_string(&mut self) -> (r: String)
        requires
            old(self).wf(),
            old(self).position < old(self).chars.len(),
        ensures
            final(self).wf(),
            final(self).input@ == old(self).input@,
            final(self).position == run_end(
                old(self).input@,
                old(self).position + 1,
                CharClass::NotQuote,
            ),
            r@ == old(self).input@.subrange(
                old(self).position + 1,
                final(self).position as int,
            ),
    {
        let ghost s = self.input@;
        self.read_char();
        let pos = self.position;
        while self.position < self.chars.len() && self.ch != '"'
            invariant
                self.wf(),
                self.input@ == s,
                pos <= self.position,
                run_end(s, self.position as int, CharClass::NotQuote) == run_end(
                    s,
                    pos as int,
                    CharClass::NotQuote,
                ),
            decreases self.chars.len() - self.position,
        {
            self.read_char();
        }
        String::from_str(self.input.as_str().substring_char(pos, self.position))
    }

    /// Produces the next token and moves the cursor past it. At the end of
    /// input this keeps returning `EOF` with an empty text.
    pub fn next_token(&mut self) -> (tok: Token)
        requires
            old(self).wf(),
        ensures
            final(self).wf(),
            final(self).text() == old(self).text(),
            tok.token_type == scan(old(self).text(), old(self).cursor()).kind,
            tok.literal@ == scan(old(self).text(), old(self).cursor()).text,
            final(self).cursor() == scan(old(self).text(), old(self).cursor()).end,
            old(self).cursor() <= final(self).cursor(),
            tok.token_type == TokenType::EOF ==> final(self).cursor() == final(self).text().len(),
    {
        let ghost s = self.input@;
        self.skip_white_space();
        let start = self.position;
        proof {
            lemma_run_end(s, old(self).position as int, CharClass::Whitespace);
        }
        if start >= self.chars.len() {
            return Token::new_token(TokenType::EOF, String::new());
        }
        let c = self.ch;
        if self.is_letter(c) {
            let literal = self.read_identifier();
            proof {
                lemma_run_end(s, start as int, CharClass::Letter);
            }
            let kind = TokenType::lookup_ident(&literal);
            return Token::new_token(kind, literal);
        }
        if self.is_digit(c) {
            let literal = self.read_number();
            proof {
                lemma_run_end(s, start as int, CharClass::Digit);
            }
            return Token::new_token(TokenType::INT, literal);
        }
        if c == '"' {
            let literal = self.read_string();
            proof {
                lemma_run_end(s, start + 1, CharClass::NotQuote);
            }
            if self.position < self.chars.len() {
                self.read_char();
                return Token::new_token(TokenType::STRING, literal);
            }
            return Token::new_token(TokenType::UNTERMINATED_STRING, literal);
        }
        let kind = match c {
            '=' => {
                if self.peek_char() == '=' {
                    self.read_char();
                    TokenType::EQ
                } else {
                    TokenType::ASSIGN
                }
            },
            '!' => {
                if self.peek_char() == '=' {
                    self.read_char();
                    TokenType::NOT_EQ
                } else {
                    TokenType::BANG
                }
            },
            '+' => TokenType::PLUS,
            '-' => TokenType::MINUS,
            '*' => TokenType::ASTERISK,
            '/' => TokenType::SLASH,
            '<' => TokenType::LT,
            '>' => TokenType::GT,
            ';' => TokenType::SEMICOLON,
            ',' => TokenType::COMMA,
            '{' => TokenType::LBRACE,
            '}' => TokenType::RBRACE,
            '(' => TokenType::LPAREN,
            ')' => TokenType::RPAREN,
            _ => TokenType::ILLEGAL,
        };
        self.read_char();
        let literal = String::from_str(self.input.as_str().substring_char(start, self.position));
        Token::new_token(kind, literal)
    }

    fn is_letter(&self, ch: char) -> (r: bool)
        ensures
            r == is_letter(ch),
    {
        ('a' <= ch && ch <= 'z') || ('A' <= ch && ch <= 'Z') || ch == '_'
    }

    fn is_digit(&self, ch: char) -> (r: bool)
        ensures
            r == is_digit(ch),
    {
        '0' <= ch && ch <= '9'
    }
}

} // verus!
