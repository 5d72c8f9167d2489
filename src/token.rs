//! Token kinds, tokens, and the keyword table.
use vstd::prelude::*;

verus! {

/// The closed set of token kinds.
#[derive(PartialEq, Eq, Structural, Debug, Clone, Copy)]
pub enum TokenType {
    /// A character that starts no token.
    ILLEGAL,
    /// End of input.
    EOF,
    /// A string literal whose closing quote never came.
    UNTERMINATED_STRING,
    // identifiers and literals
    IDENT,
    INT,
    STRING,
    // operators
    ASSIGN,
    PLUS,
    MINUS,
    BANG,
    ASTERISK,
    SLASH,
    LT,
    GT,
    EQ,
    NOT_EQ,
    // delimiters
    COMMA,
    SEMICOLON,
    LPAREN,
    RPAREN,
    LBRACE,
    RBRACE,
    // keywords
    FUNCTION,
    LET,
    TRUE,
    FALSE,
    IF,
    ELSE,
    RETURN,
}

/// The keyword a spelling stands for, or `IDENT` when it is none.
pub open spec fn keyword_kind(s: Seq<char>) -> TokenType {
    if s == seq!['f', 'n'] {
        TokenType::FUNCTION
    } else if s == seq!['l', 'e', 't'] {
        TokenType::LET
    } else if s == seq!['t', 'r', 'u', 'e'] {
        TokenType::TRUE
    } else if s == seq!['f', 'a', 'l', 's', 'e'] {
        TokenType::FALSE
    } else if s == seq!['i', 'f'] {
        TokenType::IF
    } else if s == seq!['e', 'l', 's', 'e'] {
        TokenType::ELSE
    } else if s == seq!['r', 'e', 't', 'u', 'r', 'n'] {
        TokenType::RETURN
    } else {
        TokenType::IDENT
    }
}

/// The printed name of a kind: the symbol itself for operators and
/// delimiters, the upper-case word otherwise.
pub open spec fn kind_name(k: TokenType) -> Seq<char> {
    match k {
        TokenType::ILLEGAL => "ILLEGAL"@,
        TokenType::EOF => "EOF"@,
        TokenType::UNTERMINATED_STRING => "UNTERMINATED_STRING"@,
        TokenType::IDENT => "IDENT"@,
        TokenType::INT => "INT"@,
        TokenType::STRING => "STRING"@,
        TokenType::ASSIGN => "="@,
        TokenType::PLUS => "+"@,
        TokenType::MINUS => "-"@,
        TokenType::BANG => "!"@,
        TokenType::ASTERISK => "*"@,
        TokenType::SLASH => "/"@,
        TokenType::LT => "<"@,
        TokenType::GT => ">"@,
        TokenType::EQ => "=="@,
        TokenType::NOT_EQ => "!="@,
        TokenType::COMMA => ","@,
        TokenType::SEMICOLON => ";"@,
        TokenType::LPAREN => "("@,
        TokenType::RPAREN => ")"@,
        TokenType::LBRACE => "{"@,
        TokenType::RBRACE => "}"@,
        TokenType::FUNCTION => "FUNCTION"@,
        TokenType::LET => "LET"@,
        TokenType::TRUE => "TRUE"@,
        TokenType::FALSE => "FALSE"@,
        TokenType::IF => "IF"@,
        TokenType::ELSE => "ELSE"@,
        TokenType::RETURN => "RETURN"@,
    }
}

impl TokenType {
    pub fn as_str(&self) -> (r: &'static str)
        ensures
            r@ == kind_name(*self),
    {
        match self {
            TokenType::ILLEGAL => "ILLEGAL",
            TokenType::EOF => "EOF",
            TokenType::UNTERMINATED_STRING => "UNTERMINATED_STRING",
            TokenType::IDENT => "IDENT",
            TokenType::INT => "INT",
            TokenType::STRING => "STRING",
            TokenType::ASSIGN => "=",
            TokenType::PLUS => "+",
            TokenType::MINUS => "-",
            TokenType::BANG => "!",
            TokenType::ASTERISK => "*",
            TokenType::SLASH => "/",
            TokenType::LT => "<",
            TokenType::GT => ">",
            TokenType::EQ => "==",
            TokenType::NOT_EQ => "!=",
            TokenType::COMMA => ",",
            TokenType::SEMICOLON => ";",
            TokenType::LPAREN => "(",
            TokenType::RPAREN => ")",
            TokenType::LBRACE => "{",
            TokenType::RBRACE => "}",
            TokenType::FUNCTION => "FUNCTION",
            TokenType::LET => "LET",
            TokenType::TRUE => "TRUE",
            TokenType::FALSE => "FALSE",
            TokenType::IF => "IF",
            TokenType::ELSE => "ELSE",
            TokenType::RETURN => "RETURN",
        }
    }
}

/// A classified piece of the input: its kind and its text.
#[derive(Debug)]
pub struct Token {
    pub token_type: TokenType,
    /// The token's text: a slice of the input, the inside of a string
    /// literal, or empty at the end of input.
    pub literal: String,
}

impl Token {
    pub fn new_token(token_type: TokenType, ch: String) -> (tok: Token)
        ensures
            tok.token_type == token_type,
            tok.literal@ == ch@,
    {
        Token { token_type, literal: ch }
    }
}

impl TokenType {
    /// Resolves identifier-shaped text against the keyword table.
    pub fn lookup_ident(ident: &String) -> (r: TokenType)
        ensures
            r == keyword_kind(ident@),
    {
        proof {
            reveal_strlit("fn");
            reveal_strlit("let");
            reveal_strlit("true");
            reveal_strlit("false");
            reveal_strlit("if");
            reveal_strlit("else");
            reveal_strlit("return");
            assert("fn"@ =~= seq!['f', 'n']);
            assert("let"@ =~= seq!['l', 'e', 't']);
            assert("true"@ =~= seq!['t', 'r', 'u', 'e']);
            assert("false"@ =~= seq!['f', 'a', 'l', 's', 'e']);
            assert("if"@ =~= seq!['i', 'f']);
            assert("else"@ =~= seq!['e', 'l', 's', 'e']);
            assert("return"@ =~= seq!['r', 'e', 't', 'u', 'r', 'n']);
        }
        if ident.eq(&String::from_str("fn")) {
            TokenType::FUNCTION
        } else if ident.eq(&String::from_str("let")) {
            TokenType::LET
        } else if ident.eq(&String::from_str("true")) {
            TokenType::TRUE
        } else if ident.eq(&String::from_str("false")) {
            TokenType::FALSE
        } else if ident.eq(&String::from_str("if")) {
            TokenType::IF
        } else if ident.eq(&String::from_str("else")) {
            TokenType::ELSE
        } else if ident.eq(&String::from_str("return")) {
            TokenType::RETURN
        } else {
            TokenType::IDENT
        }
    }
}

} // verus!
