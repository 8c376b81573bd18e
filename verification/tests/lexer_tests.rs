use mimir::lexer::{Lexer, Token, TokenKind};

fn expect(lexer: &mut Lexer, kind: TokenKind, lexeme: &str) {
    let token = lexer.scan_token();
    assert_eq!(token.kind, kind);
    assert_eq!(token.lexeme, lexeme);
}

#[test]
fn lexes_binary_expression() {
    let source = "1 + 2";
    let mut lexer = Lexer::new(source);

    let token = lexer.scan_token();
    assert_eq!(token.kind, TokenKind::Integer);
    assert_eq!(token.lexeme, "1");

    let token = lexer.scan_token();
    assert_eq!(token.kind, TokenKind::Plus);
    assert_eq!(token.lexeme, "+");

    let token = lexer.scan_token();
    assert_eq!(token.kind, TokenKind::Integer);
    assert_eq!(token.lexeme, "2");
}

#[test]
fn binary_expression_ends_with_end_of_file() {
    let mut lexer = Lexer::new("1 + 2");
    expect(&mut lexer, TokenKind::Integer, "1");
    expect(&mut lexer, TokenKind::Plus, "+");
    expect(&mut lexer, TokenKind::Integer, "2");
    expect(&mut lexer, TokenKind::EndOfFile, "");
}

#[test]
fn empty_source_yields_end_of_file() {
    let mut lexer = Lexer::new("");
    expect(&mut lexer, TokenKind::EndOfFile, "");
}

#[test]
fn whitespace_only_source_yields_end_of_file() {
    let mut lexer = Lexer::new("   ");
    expect(&mut lexer, TokenKind::EndOfFile, "");
}

#[test]
fn mixed_whitespace_only_source_yields_end_of_file() {
    let mut lexer = Lexer::new(" \t\r\n\u{3000}\u{00A0}");
    expect(&mut lexer, TokenKind::EndOfFile, "");
}

#[test]
fn end_of_file_is_repeatable() {
    let mut lexer = Lexer::new("7");
    expect(&mut lexer, TokenKind::Integer, "7");
    expect(&mut lexer, TokenKind::EndOfFile, "");
    expect(&mut lexer, TokenKind::EndOfFile, "");
    expect(&mut lexer, TokenKind::EndOfFile, "");
}

#[test]
fn integer_run_is_captured_whole() {
    let mut lexer = Lexer::new("12345");
    expect(&mut lexer, TokenKind::Integer, "12345");
    expect(&mut lexer, TokenKind::EndOfFile, "");
}

#[test]
fn long_integer_run_is_not_truncated() {
    let digits = "12345678901234567890123456789012345678901234567890";
    let mut lexer = Lexer::new(digits);
    expect(&mut lexer, TokenKind::Integer, digits);
    expect(&mut lexer, TokenKind::EndOfFile, "");
}

#[test]
fn integer_run_stops_at_non_numeric_character() {
    let mut lexer = Lexer::new("1a2");
    expect(&mut lexer, TokenKind::Integer, "1");
    expect(&mut lexer, TokenKind::Error, "error");
    expect(&mut lexer, TokenKind::Integer, "2");
    expect(&mut lexer, TokenKind::EndOfFile, "");
}

#[test]
fn non_ascii_digits_are_numeric() {
    let source = "\u{0663}\u{0664}";
    let mut lexer = Lexer::new(source);
    expect(&mut lexer, TokenKind::Integer, source);
    expect(&mut lexer, TokenKind::EndOfFile, "");
}

#[test]
fn plus_yields_plus_token() {
    let mut lexer = Lexer::new("+");
    expect(&mut lexer, TokenKind::Plus, "+");
    expect(&mut lexer, TokenKind::EndOfFile, "");
}

#[test]
fn adjacent_plus_tokens() {
    let mut lexer = Lexer::new("++");
    expect(&mut lexer, TokenKind::Plus, "+");
    expect(&mut lexer, TokenKind::Plus, "+");
    expect(&mut lexer, TokenKind::EndOfFile, "");
}

#[test]
fn unrecognized_character_yields_error_token() {
    let mut lexer = Lexer::new("?");
    expect(&mut lexer, TokenKind::Error, "error");
    expect(&mut lexer, TokenKind::EndOfFile, "");
}

#[test]
fn scan_resumes_after_error_token() {
    let mut lexer = Lexer::new("a+");
    expect(&mut lexer, TokenKind::Error, "error");
    expect(&mut lexer, TokenKind::Plus, "+");
    expect(&mut lexer, TokenKind::EndOfFile, "");
}

#[test]
fn whitespace_is_not_part_of_any_lexeme() {
    let mut lexer = Lexer::new("  7  \t 8 ");
    expect(&mut lexer, TokenKind::Integer, "7");
    expect(&mut lexer, TokenKind::Integer, "8");
    expect(&mut lexer, TokenKind::EndOfFile, "");
}

#[test]
fn token_new_copies_the_lexeme() {
    let token = Token::new(TokenKind::Integer, "42");
    assert_eq!(token.kind, TokenKind::Integer);
    assert_eq!(token.lexeme, "42");
}
