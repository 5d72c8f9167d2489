use tokenizer::lexer::Lexer;
use tokenizer::token::{Token, TokenType};

fn all_tokens(input: &str) -> Vec<(TokenType, String)> {
    let mut lx = Lexer::new(input.to_string());
    let mut out = Vec::new();
    loop {
        let tok = lx.next_token();
        let done = tok.token_type == TokenType::EOF;
        out.push((tok.token_type, tok.literal));
        if done {
            return out;
        }
    }
}

fn pair(k: TokenType, s: &str) -> (TokenType, String) {
    (k, s.to_string())
}

#[test]
fn whitespace_only_is_end_of_input() {
    let mut lx = Lexer::new(" \t\r\n  \n".to_string());
    let tok = lx.next_token();
    assert_eq!(tok.token_type, TokenType::EOF);
    assert_eq!(tok.literal, "");
}

#[test]
fn empty_input_is_end_of_input() {
    assert_eq!(all_tokens(""), vec![pair(TokenType::EOF, "")]);
}

#[test]
fn let_statement() {
    assert_eq!(
        all_tokens("let x = 5;"),
        vec![
            pair(TokenType::LET, "let"),
            pair(TokenType::IDENT, "x"),
            pair(TokenType::ASSIGN, "="),
            pair(TokenType::INT, "5"),
            pair(TokenType::SEMICOLON, ";"),
            pair(TokenType::EOF, ""),
        ]
    );
}

#[test]
fn double_equal_is_one_token() {
    assert_eq!(all_tokens("=="), vec![pair(TokenType::EQ, "=="), pair(TokenType::EOF, "")]);
}

#[test]
fn not_equal_is_one_token() {
    assert_eq!(all_tokens("!="), vec![pair(TokenType::NOT_EQ, "!="), pair(TokenType::EOF, "")]);
}

#[test]
fn lone_bang_and_assign() {
    assert_eq!(
        all_tokens("! = !"),
        vec![
            pair(TokenType::BANG, "!"),
            pair(TokenType::ASSIGN, "="),
            pair(TokenType::BANG, "!"),
            pair(TokenType::EOF, ""),
        ]
    );
}

#[test]
fn unrecognized_character() {
    assert_eq!(all_tokens("@"), vec![pair(TokenType::ILLEGAL, "@"), pair(TokenType::EOF, "")]);
}

#[test]
fn nul_inside_input_is_unrecognized() {
    assert_eq!(
        all_tokens("a\0b"),
        vec![
            pair(TokenType::IDENT, "a"),
            pair(TokenType::ILLEGAL, "\0"),
            pair(TokenType::IDENT, "b"),
            pair(TokenType::EOF, ""),
        ]
    );
}

#[test]
fn end_of_input_repeats() {
    let mut lx = Lexer::new("x  ".to_string());
    assert_eq!(lx.next_token().token_type, TokenType::IDENT);
    for _ in 0..5 {
        let tok = lx.next_token();
        assert_eq!(tok.token_type, TokenType::EOF);
        assert_eq!(tok.literal, "");
    }
}

#[test]
fn each_symbol_has_its_own_kind() {
    assert_eq!(
        all_tokens("+-*/<>;,{}()"),
        vec![
            pair(TokenType::PLUS, "+"),
            pair(TokenType::MINUS, "-"),
            pair(TokenType::ASTERISK, "*"),
            pair(TokenType::SLASH, "/"),
            pair(TokenType::LT, "<"),
            pair(TokenType::GT, ">"),
            pair(TokenType::SEMICOLON, ";"),
            pair(TokenType::COMMA, ","),
            pair(TokenType::LBRACE, "{"),
            pair(TokenType::RBRACE, "}"),
            pair(TokenType::LPAREN, "("),
            pair(TokenType::RPAREN, ")"),
            pair(TokenType::EOF, ""),
        ]
    );
}

#[test]
fn keywords_and_identifiers() {
    assert_eq!(
        all_tokens("fn let true false if else return lets _x"),
        vec![
            pair(TokenType::FUNCTION, "fn"),
            pair(TokenType::LET, "let"),
            pair(TokenType::TRUE, "true"),
            pair(TokenType::FALSE, "false"),
            pair(TokenType::IF, "if"),
            pair(TokenType::ELSE, "else"),
            pair(TokenType::RETURN, "return"),
            pair(TokenType::IDENT, "lets"),
            pair(TokenType::IDENT, "_x"),
            pair(TokenType::EOF, ""),
        ]
    );
}

#[test]
fn identifiers_hold_letters_only() {
    assert_eq!(
        all_tokens("abc123"),
        vec![pair(TokenType::IDENT, "abc"), pair(TokenType::INT, "123"), pair(TokenType::EOF, "")]
    );
}

#[test]
fn string_literal() {
    assert_eq!(
        all_tokens("\"hi there\";"),
        vec![
            pair(TokenType::STRING, "hi there"),
            pair(TokenType::SEMICOLON, ";"),
            pair(TokenType::EOF, ""),
        ]
    );
}

#[test]
fn empty_string_literal() {
    assert_eq!(all_tokens("\"\""), vec![pair(TokenType::STRING, ""), pair(TokenType::EOF, "")]);
}

#[test]
fn unterminated_string_literal() {
    assert_eq!(
        all_tokens("x \"abc"),
        vec![
            pair(TokenType::IDENT, "x"),
            pair(TokenType::UNTERMINATED_STRING, "abc"),
            pair(TokenType::EOF, ""),
        ]
    );
}

#[test]
fn non_ascii_text_inside_string() {
    assert_eq!(
        all_tokens("\"héllo\" é"),
        vec![
            pair(TokenType::STRING, "héllo"),
            pair(TokenType::ILLEGAL, "é"),
            pair(TokenType::EOF, ""),
        ]
    );
}

#[test]
fn tokens_and_whitespace_rebuild_input() {
    let input = "let add = fn(x, y) {\n\tx + y;\n};\nif (5 < 10) { return true; } else { return !false; }\n10 == 10; 10 != 9;  ";
    let mut lx = Lexer::new(input.to_string());
    let chars: Vec<char> = input.chars().collect();
    let mut rebuilt = String::new();
    let mut at: usize = 0;
    loop {
        let tok = lx.next_token();
        while at < chars.len() && matches!(chars[at], ' ' | '\t' | '\n' | '\r') {
            rebuilt.push(chars[at]);
            at += 1;
        }
        if tok.token_type == TokenType::EOF {
            break;
        }
        assert_ne!(tok.token_type, TokenType::ILLEGAL);
        rebuilt.push_str(&tok.literal);
        at += tok.literal.chars().count();
    }
    assert_eq!(at, chars.len());
    assert_eq!(rebuilt, input);
}

#[test]
fn lookup_ident_table() {
    assert_eq!(TokenType::lookup_ident(&"fn".to_string()), TokenType::FUNCTION);
    assert_eq!(TokenType::lookup_ident(&"return".to_string()), TokenType::RETURN);
    assert_eq!(TokenType::lookup_ident(&"Let".to_string()), TokenType::IDENT);
    assert_eq!(TokenType::lookup_ident(&"".to_string()), TokenType::IDENT);
}

#[test]
fn kind_names() {
    assert_eq!(TokenType::EQ.as_str(), "==");
    assert_eq!(TokenType::LBRACE.as_str(), "{");
    assert_eq!(TokenType::FUNCTION.as_str(), "FUNCTION");
    assert_eq!(TokenType::ILLEGAL.as_str(), "ILLEGAL");
}

#[test]
fn new_token_keeps_its_parts() {
    let tok = Token::new_token(TokenType::INT, "42".to_string());
    assert_eq!(tok.token_type, TokenType::INT);
    assert_eq!(tok.literal, "42");
}
