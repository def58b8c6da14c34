use tree_walker::errors::{error, report, Error, RuntimeError};
use tree_walker::number::Number;
use tree_walker::text::{chars_of, decimal_text, text_of};
use tree_walker::tokens::{LiteralType, Token, TokenType};

#[test]
fn report_line_without_a_place() {
    let e = Error { line: 3, message: "Unterminated string".to_string(), place: String::new() };
    assert_eq!(report(e), "[line 3] Error: Unterminated string");
}

#[test]
fn report_line_with_a_place() {
    let e = Error {
        line: 120,
        message: "expect expression".to_string(),
        place: " at ')'".to_string(),
    };
    assert_eq!(report(e), "[line 120] Error at ')': expect expression");
}

#[test]
fn error_at_the_end_marker() {
    let token = Token { kind: TokenType::Eof, lexeme: String::new(), literal: None, line: 7 };
    let e = error(&token, &"expect expression".to_string());
    assert_eq!(
        e,
        Error {
            line: 7,
            message: "expect expression".to_string(),
            place: " at the end".to_string(),
        }
    );
    assert_eq!(report(e), "[line 7] Error at the end: expect expression");
}

#[test]
fn error_at_a_token() {
    let token = Token { kind: TokenType::Plus, lexeme: "+".to_string(), literal: None, line: 2 };
    let e = error(&token, &"expect expression".to_string());
    assert_eq!(
        e,
        Error {
            line: 2,
            message: "expect expression".to_string(),
            place: " at '+'".to_string(),
        }
    );
}

#[test]
fn runtime_error_report() {
    let token = Token { kind: TokenType::Minus, lexeme: "-".to_string(), literal: None, line: 14 };
    let e = RuntimeError::new(token.clone(), "operand must be a number".to_string());
    assert_eq!(e.token, token);
    assert_eq!(e.message, "operand must be a number");
    assert_eq!(e.report(), "operand must be a number \n[token -]\n[line 14]");
}

#[test]
fn decimal_text_of_small_and_large_numbers() {
    assert_eq!(decimal_text(0), "0");
    assert_eq!(decimal_text(7), "7");
    assert_eq!(decimal_text(10), "10");
    assert_eq!(decimal_text(1905), "1905");
    assert_eq!(decimal_text(u64::MAX), "18446744073709551615");
}

#[test]
fn characters_and_text() {
    let chars = chars_of("héllo");
    assert_eq!(chars, vec!['h', 'é', 'l', 'l', 'o']);
    assert_eq!(text_of(&chars, 1, 4), "éll");
    assert_eq!(text_of(&chars, 2, 2), "");
    assert_eq!(text_of(&chars, 0, 5), "héllo");
}

#[test]
fn kinds_have_their_names() {
    assert_eq!(TokenType::LeftParen.name(), "LeftParen");
    assert_eq!(TokenType::BangEqual.name(), "BangEqual");
    assert_eq!(TokenType::String.name(), "String");
    assert_eq!(TokenType::While.name(), "While");
    assert_eq!(TokenType::Eof.name(), "Eof");
    assert_eq!(TokenType::Eof.name(), format!("{:?}", TokenType::Eof));
    assert_eq!(TokenType::Question.name(), format!("{:?}", TokenType::Question));
}

#[test]
fn duplicates_equal_what_they_copy() {
    let token = Token {
        kind: TokenType::String,
        lexeme: "\"a\"".to_string(),
        literal: Some(LiteralType::String("a".to_string())),
        line: 3,
    };
    assert_eq!(token.duplicate(), token);
    for literal in [
        LiteralType::Number(Number::from_bits(1.5f64.to_bits())),
        LiteralType::String("s".to_string()),
        LiteralType::Bool(true),
        LiteralType::Nil,
    ] {
        assert_eq!(literal.duplicate(), literal);
    }
}
