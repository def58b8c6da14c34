use tree_walker::errors::Error;
use tree_walker::number::Number;
use tree_walker::scanner::Scanner;
use tree_walker::tokens::{LiteralType, Token, TokenType};

fn number(lexeme: &str) -> Number {
    Number::from_bits(lexeme.parse::<f64>().unwrap().to_bits())
}

fn num(x: f64) -> Number {
    Number::from_bits(x.to_bits())
}

fn number_text(n: Number) -> String {
    format!("{}", f64::from_bits(n.to_bits()))
}

fn scan(source: &str) -> (Vec<Token>, Vec<Error>) {
    let mut scanner = Scanner::new(source.to_string());
    let tokens = scanner.scan_tokens(&number);
    (tokens, scanner.diagnostics().clone())
}

fn token(kind: TokenType, lexeme: &str, line: u64) -> Token {
    Token { kind, lexeme: lexeme.to_string(), literal: None, line }
}

fn kinds(source: &str) -> Vec<TokenType> {
    scan(source).0.iter().map(|t| t.kind).collect()
}

#[test]
fn grouping() {
    let mut scanner = Scanner::new("(()){}".to_string());

    assert_eq!(
        scanner.scan_tokens(&number),
        vec![
            Token {
                kind: TokenType::LeftParen,
                lexeme: "(".to_string(),
                line: 1,
                literal: None,
            },
            Token {
                kind: TokenType::LeftParen,
                lexeme: "(".to_string(),
                line: 1,
                literal: None,
            },
            Token {
                kind: TokenType::RightParen,
                lexeme: ")".to_string(),
                line: 1,
                literal: None,
            },
            Token {
                kind: TokenType::RightParen,
                lexeme: ")".to_string(),
                line: 1,
                literal: None,
            },
            Token {
                kind: TokenType::LeftBrace,
                lexeme: "{".to_string(),
                line: 1,
                literal: None,
            },
            Token {
                kind: TokenType::RightBrace,
                lexeme: "}".to_string(),
                line: 1,
                literal: None,
            },
            Token {
                kind: TokenType::Eof,
                lexeme: "".to_string(),
                line: 1,
                literal: None,
            },
        ]
    );
}

#[test]
fn operators() {
    let mut scanner = Scanner::new("!*+-/=<> <= ==".to_string());

    assert_eq!(
        scanner.scan_tokens(&number),
        vec![
            Token {
                kind: TokenType::Bang,
                lexeme: "!".to_string(),
                line: 1,
                literal: None,
            },
            Token {
                kind: TokenType::Star,
                lexeme: "*".to_string(),
                line: 1,
                literal: None,
            },
            Token {
                kind: TokenType::Plus,
                lexeme: "+".to_string(),
                line: 1,
                literal: None,
            },
            Token {
                kind: TokenType::Minus,
                lexeme: "-".to_string(),
                line: 1,
                literal: None,
            },
            Token {
                kind: TokenType::Slash,
                lexeme: "/".to_string(),
                line: 1,
                literal: None,
            },
            Token {
                kind: TokenType::Equal,
                lexeme: "=".to_string(),
                line: 1,
                literal: None,
            },
            Token {
                kind: TokenType::Less,
                lexeme: "<".to_string(),
                line: 1,
                literal: None,
            },
            Token {
                kind: TokenType::Greater,
                lexeme: ">".to_string(),
                line: 1,
                literal: None,
            },
            Token {
                kind: TokenType::LessEqual,
                lexeme: "<=".to_string(),
                line: 1,
                literal: None,
            },
            Token {
                kind: TokenType::EqualEqual,
                lexeme: "==".to_string(),
                line: 1,
                literal: None,
            },
            Token {
                kind: TokenType::Eof,
                lexeme: "".to_string(),
                line: 1,
                literal: None,
            },
        ]
    );
}

#[test]
fn string_literals() {
    let mut scanner = Scanner::new("\"this is a string literal\"()".to_string());

    assert_eq!(
        scanner.scan_tokens(&number),
        vec![
            Token {
                kind: TokenType::String,
                lexeme: "\"this is a string literal\"".to_string(),
                line: 1,
                literal: Some(LiteralType::String("this is a string literal".to_string())),
            },
            Token {
                kind: TokenType::LeftParen,
                lexeme: "(".to_string(),
                line: 1,
                literal: None,
            },
            Token {
                kind: TokenType::RightParen,
                lexeme: ")".to_string(),
                line: 1,
                literal: None,
            },
            Token {
                kind: TokenType::Eof,
                lexeme: "".to_string(),
                line: 1,
                literal: None,
            },
        ]
    );
}

#[test]
fn number_literals() {
    let mut scanner = Scanner::new("123.45".to_string());

    assert_eq!(
        scanner.scan_tokens(&number),
        vec![
            Token {
                kind: TokenType::Number,
                lexeme: "123.45".to_string(),
                line: 1,
                literal: Some(LiteralType::Number(num(123.45))),
            },
            Token {
                kind: TokenType::Eof,
                lexeme: "".to_string(),
                line: 1,
                literal: None,
            },
        ]
    );
}

#[test]
fn ingnores_comment_blocks() {
    let mut scanner = Scanner::new("/* \nthis \nis \na \ncomment */123.45".to_string());

    assert_eq!(
        scanner.scan_tokens(&number),
        vec![
            Token {
                kind: TokenType::Number,
                lexeme: "123.45".to_string(),
                line: 1,
                literal: Some(LiteralType::Number(num(123.45))),
            },
            Token {
                kind: TokenType::Eof,
                lexeme: "".to_string(),
                line: 1,
                literal: None,
            },
        ]
    );
}

#[test]
fn less_equal_is_one_token() {
    let (tokens, errors) = scan("<=");
    assert_eq!(
        tokens,
        vec![token(TokenType::LessEqual, "<=", 1), token(TokenType::Eof, "", 1)]
    );
    assert!(errors.is_empty());
}

#[test]
fn two_character_operators() {
    assert_eq!(
        kinds("!= == >= <= ! = > <"),
        vec![
            TokenType::BangEqual,
            TokenType::EqualEqual,
            TokenType::GreaterEqual,
            TokenType::LessEqual,
            TokenType::Bang,
            TokenType::Equal,
            TokenType::Greater,
            TokenType::Less,
            TokenType::Eof,
        ]
    );
}

#[test]
fn punctuation() {
    assert_eq!(
        kinds("(){},.-+;:*?"),
        vec![
            TokenType::LeftParen,
            TokenType::RightParen,
            TokenType::LeftBrace,
            TokenType::RightBrace,
            TokenType::Comma,
            TokenType::Dot,
            TokenType::Minus,
            TokenType::Plus,
            TokenType::Semicolon,
            TokenType::Colon,
            TokenType::Star,
            TokenType::Question,
            TokenType::Eof,
        ]
    );
}

#[test]
fn line_comment_yields_no_tokens() {
    let (tokens, errors) = scan("// nothing here <= 12 \"open");
    assert_eq!(tokens, vec![token(TokenType::Eof, "", 1)]);
    assert!(errors.is_empty());
}

#[test]
fn line_comment_ends_at_the_newline() {
    let (tokens, errors) = scan("1 // one\n+");
    assert_eq!(
        tokens,
        vec![
            Token {
                kind: TokenType::Number,
                lexeme: "1".to_string(),
                literal: Some(LiteralType::Number(num(1.0))),
                line: 1,
            },
            token(TokenType::Plus, "+", 2),
            token(TokenType::Eof, "", 2),
        ]
    );
    assert!(errors.is_empty());
}

#[test]
fn block_comment_without_end_runs_to_the_end() {
    let (tokens, errors) = scan("+ /* never closed *");
    assert_eq!(tokens, vec![token(TokenType::Plus, "+", 1), token(TokenType::Eof, "", 1)]);
    assert!(errors.is_empty());
}

#[test]
fn block_comment_ends_at_the_first_terminator() {
    assert_eq!(
        kinds("/**/ + /* a */ - */"),
        vec![TokenType::Plus, TokenType::Minus, TokenType::Star, TokenType::Slash, TokenType::Eof]
    );
}

#[test]
fn unterminated_string_is_reported_once() {
    let (tokens, errors) = scan("\"abc");
    assert_eq!(tokens, vec![token(TokenType::Eof, "", 1)]);
    assert_eq!(
        errors,
        vec![Error { line: 1, message: "Unterminated string".to_string(), place: String::new() }]
    );
}

#[test]
fn unterminated_string_counts_its_lines() {
    let (tokens, errors) = scan("+\n\"a\nb\n");
    assert_eq!(tokens, vec![token(TokenType::Plus, "+", 1), token(TokenType::Eof, "", 4)]);
    assert_eq!(
        errors,
        vec![Error { line: 4, message: "Unterminated string".to_string(), place: String::new() }]
    );
}

#[test]
fn string_over_two_lines() {
    let (tokens, errors) = scan("\"a\nb\" +");
    assert_eq!(
        tokens,
        vec![
            Token {
                kind: TokenType::String,
                lexeme: "\"a\nb\"".to_string(),
                literal: Some(LiteralType::String("a\nb".to_string())),
                line: 2,
            },
            token(TokenType::Plus, "+", 2),
            token(TokenType::Eof, "", 2),
        ]
    );
    assert!(errors.is_empty());
}

#[test]
fn empty_string_literal() {
    let (tokens, _) = scan("\"\"");
    assert_eq!(
        tokens[0],
        Token {
            kind: TokenType::String,
            lexeme: "\"\"".to_string(),
            literal: Some(LiteralType::String(String::new())),
            line: 1,
        }
    );
}

#[test]
fn unexpected_character_is_reported_and_skipped() {
    let (tokens, errors) = scan("1 @ 2\n#");
    assert_eq!(
        tokens.iter().map(|t| t.kind).collect::<Vec<_>>(),
        vec![TokenType::Number, TokenType::Number, TokenType::Eof]
    );
    assert_eq!(
        errors,
        vec![
            Error {
                line: 1,
                message: "Unexpected character: @".to_string(),
                place: String::new(),
            },
            Error {
                line: 2,
                message: "Unexpected character: #".to_string(),
                place: String::new(),
            },
        ]
    );
}

#[test]
fn newlines_count_lines() {
    let (tokens, _) = scan("\n\n+\r\n \t-");
    assert_eq!(
        tokens,
        vec![
            token(TokenType::Plus, "+", 3),
            token(TokenType::Minus, "-", 4),
            token(TokenType::Eof, "", 4),
        ]
    );
}

#[test]
fn empty_source_is_one_end_marker() {
    let (tokens, errors) = scan("");
    assert_eq!(tokens, vec![token(TokenType::Eof, "", 1)]);
    assert!(errors.is_empty());
}

#[test]
fn dot_without_digit_is_not_part_of_the_number() {
    let (tokens, _) = scan("3.");
    assert_eq!(
        tokens,
        vec![
            Token {
                kind: TokenType::Number,
                lexeme: "3".to_string(),
                literal: Some(LiteralType::Number(num(3.0))),
                line: 1,
            },
            token(TokenType::Dot, ".", 1),
            token(TokenType::Eof, "", 1),
        ]
    );
}

#[test]
fn number_takes_one_fraction_only() {
    let (tokens, _) = scan("1.5.25");
    assert_eq!(
        tokens,
        vec![
            Token {
                kind: TokenType::Number,
                lexeme: "1.5".to_string(),
                literal: Some(LiteralType::Number(num(1.5))),
                line: 1,
            },
            token(TokenType::Dot, ".", 1),
            Token {
                kind: TokenType::Number,
                lexeme: "25".to_string(),
                literal: Some(LiteralType::Number(num(25.0))),
                line: 1,
            },
            token(TokenType::Eof, "", 1),
        ]
    );
}

#[test]
fn number_at_the_end_of_input() {
    let (tokens, _) = scan("12");
    assert_eq!(tokens[0].lexeme, "12");
    assert_eq!(tokens[0].literal, Some(LiteralType::Number(num(12.0))));
    assert_eq!(tokens.len(), 2);
}

#[test]
fn reserved_words() {
    assert_eq!(
        kinds(
            "and class else false for fun if nil or print return super this true var while"
        ),
        vec![
            TokenType::And,
            TokenType::Class,
            TokenType::Else,
            TokenType::False,
            TokenType::For,
            TokenType::Fun,
            TokenType::If,
            TokenType::Nil,
            TokenType::Or,
            TokenType::Print,
            TokenType::Return,
            TokenType::Super,
            TokenType::This,
            TokenType::True,
            TokenType::Var,
            TokenType::While,
            TokenType::Eof,
        ]
    );
}

#[test]
fn identifiers_are_maximal() {
    let (tokens, errors) = scan("nil nile _if if_ a1 A_b");
    assert_eq!(
        tokens,
        vec![
            token(TokenType::Nil, "nil", 1),
            token(TokenType::Identifier, "nile", 1),
            token(TokenType::Identifier, "_if", 1),
            token(TokenType::Identifier, "if_", 1),
            token(TokenType::Identifier, "a1", 1),
            token(TokenType::Identifier, "A_b", 1),
            token(TokenType::Eof, "", 1),
        ]
    );
    assert!(errors.is_empty());
}

#[test]
fn identifier_at_the_end_of_input() {
    let (tokens, _) = scan("abc");
    assert_eq!(tokens, vec![token(TokenType::Identifier, "abc", 1), token(TokenType::Eof, "", 1)]);
}

#[test]
fn ternary_of_identifiers_scans_to_nine_tokens() {
    assert_eq!(
        kinds("a?b:c?d:e"),
        vec![
            TokenType::Identifier,
            TokenType::Question,
            TokenType::Identifier,
            TokenType::Colon,
            TokenType::Identifier,
            TokenType::Question,
            TokenType::Identifier,
            TokenType::Colon,
            TokenType::Identifier,
            TokenType::Eof,
        ]
    );
}

#[test]
fn characters_outside_ascii_are_single_characters() {
    let (tokens, errors) = scan("\"é\" ü +");
    assert_eq!(
        tokens,
        vec![
            Token {
                kind: TokenType::String,
                lexeme: "\"é\"".to_string(),
                literal: Some(LiteralType::String("é".to_string())),
                line: 1,
            },
            token(TokenType::Plus, "+", 1),
            token(TokenType::Eof, "", 1),
        ]
    );
    assert_eq!(
        errors,
        vec![Error {
            line: 1,
            message: "Unexpected character: ü".to_string(),
            place: String::new(),
        }]
    );
}

#[test]
fn scanning_again_appends_another_end_marker() {
    let mut scanner = Scanner::new("+".to_string());
    let first = scanner.scan_tokens(&number);
    let second = scanner.scan_tokens(&number);
    assert_eq!(first, vec![token(TokenType::Plus, "+", 1), token(TokenType::Eof, "", 1)]);
    assert_eq!(
        second,
        vec![
            token(TokenType::Plus, "+", 1),
            token(TokenType::Eof, "", 1),
            token(TokenType::Eof, "", 1),
        ]
    );
}

#[test]
fn number_literal_survives_printing_and_scanning_again() {
    for lexeme in ["0", "1", "10", "123.45", "0.1", "3.14159", "100000000000000000000", "0.000001"]
    {
        let (tokens, _) = scan(lexeme);
        let value = match &tokens[0].literal {
            Some(LiteralType::Number(n)) => *n,
            other => panic!("no number for {}: {:?}", lexeme, other),
        };
        let text = number_text(value);
        let (again, errors) = scan(&text);
        assert!(errors.is_empty());
        assert_eq!(again.len(), 2);
        assert_eq!(again[0].kind, TokenType::Number);
        assert_eq!(again[0].literal, Some(LiteralType::Number(value)));
    }
}

#[test]
fn number_beyond_the_doubles_does_not_survive_printing() {
    let lexeme = format!("1{}", "0".repeat(400));
    let (tokens, _) = scan(&lexeme);
    assert_eq!(tokens[0].literal, Some(LiteralType::Number(num(f64::INFINITY))));
    let text = number_text(num(f64::INFINITY));
    assert_eq!(text, "inf");
    assert_eq!(kinds(&text), vec![TokenType::Identifier, TokenType::Eof]);
}
