use tree_walker::errors::Error;
use tree_walker::number::Number;
use tree_walker::parser::Parser;
use tree_walker::scanner::Scanner;
use tree_walker::syntax_tree::{Binary, Expr, Grouping, Literal, PrettyPrint, Ternary, Unary};
use tree_walker::tokens::{LiteralType, Token, TokenType};

fn number(lexeme: &str) -> Number {
    Number::from_bits(lexeme.parse::<f64>().unwrap().to_bits())
}

fn num(x: f64) -> Number {
    Number::from_bits(x.to_bits())
}

fn number_text(n: Number) -> String {
    format!("{}", f64::from_bits(n.to_bits()))
}

fn lit(x: f64) -> Expr {
    Expr::Literal(Literal::new(LiteralType::Number(num(x))))
}

fn op(kind: TokenType, lexeme: &str) -> Token {
    Token { line: 1, lexeme: lexeme.to_string(), kind, literal: None }
}

fn parse(source: &str) -> (Option<Expr>, Vec<Error>) {
    let tokens = Scanner::new(source.to_string()).scan_tokens(&number);
    let mut parser = Parser::new(tokens);
    let tree = parser.parse();
    (tree, parser.diagnostics().clone())
}

fn printed(source: &str) -> String {
    parse(source).0.unwrap().pretty_print(&number_text)
}

#[test]
fn grouping_unary() {
    let tokens = Scanner::new("(-1)".to_string()).scan_tokens(&number);

    let mut parser = Parser::new(tokens);
    let expected = Expr::Grouping(Box::new(Grouping::new(Expr::Unary(Box::new(Unary::new(
        Token {
            line: 1,
            lexeme: "-".to_string(),
            kind: TokenType::Minus,
            literal: None,
        },
        Expr::Literal(Literal::new(LiteralType::Number(num(1.0)))),
    ))))));

    assert_eq!(parser.parse().unwrap(), expected);
}

#[test]
fn comma_separated_expressions() {
    let tokens = Scanner::new("1+1,1-1,1==1".to_string()).scan_tokens(&number);

    let mut parser = Parser::new(tokens);
    let expected = Expr::Binary(Box::new(Binary::new(
        Expr::Binary(Box::new(Binary::new(
            Expr::Binary(Box::new(Binary::new(
                Expr::Literal(Literal::new(LiteralType::Number(num(1.0)))),
                Token {
                    line: 1,
                    lexeme: "+".to_string(),
                    kind: TokenType::Plus,
                    literal: None,
                },
                Expr::Literal(Literal::new(LiteralType::Number(num(1.0)))),
            ))),
            Token {
                line: 1,
                lexeme: ",".to_string(),
                kind: TokenType::Comma,
                literal: None,
            },
            Expr::Binary(Box::new(Binary::new(
                Expr::Literal(Literal::new(LiteralType::Number(num(1.0)))),
                Token {
                    line: 1,
                    lexeme: "-".to_string(),
                    kind: TokenType::Minus,
                    literal: None,
                },
                Expr::Literal(Literal::new(LiteralType::Number(num(1.0)))),
            ))),
        ))),
        Token {
            line: 1,
            lexeme: ",".to_string(),
            kind: TokenType::Comma,
            literal: None,
        },
        Expr::Binary(Box::new(Binary::new(
            Expr::Literal(Literal::new(LiteralType::Number(num(1.0)))),
            Token {
                line: 1,
                lexeme: "==".to_string(),
                kind: TokenType::EqualEqual,
                literal: None,
            },
            Expr::Literal(Literal::new(LiteralType::Number(num(1.0)))),
        ))),
    )));

    assert_eq!(parser.parse().unwrap(), expected);
}

#[test]
fn grouping_plus() {
    let tokens = Scanner::new("(1+1)".to_string()).scan_tokens(&number);

    let mut parser = Parser::new(tokens);
    let expected = Expr::Grouping(Box::new(Grouping::new(Expr::Binary(Box::new(
        Binary::new(
            Expr::Literal(Literal::new(LiteralType::Number(num(1.0)))),
            Token {
                line: 1,
                lexeme: "+".to_string(),
                kind: TokenType::Plus,
                literal: None,
            },
            Expr::Literal(Literal::new(LiteralType::Number(num(1.0)))),
        ),
    )))));

    assert_eq!(parser.parse().unwrap(), expected);
}

#[test]
fn ternary() {
    let tokens = Scanner::new("1 == 1 ? 2 : 3".to_string()).scan_tokens(&number);

    let mut parser = Parser::new(tokens);
    let expected = Expr::Ternary(Box::new(Ternary::new(
        Expr::Binary(Box::new(Binary::new(
            Expr::Literal(Literal::new(LiteralType::Number(num(1.0)))),
            Token {
                line: 1,
                lexeme: "==".to_string(),
                kind: TokenType::EqualEqual,
                literal: None,
            },
            Expr::Literal(Literal::new(LiteralType::Number(num(1.0)))),
        ))),
        Expr::Literal(Literal::new(LiteralType::Number(num(2.0)))),
        Expr::Literal(Literal::new(LiteralType::Number(num(3.0)))),
    )));

    assert_eq!(parser.parse().unwrap(), expected);
}

#[test]
fn ternary_complex() {
    let tokens =
        Scanner::new("5 * 20 == 99 ? 10 : 3 < 2 ? 1 : 0".to_string()).scan_tokens(&number);

    let mut parser = Parser::new(tokens);
    let expected = Expr::Ternary(Box::new(Ternary::new(
        Expr::Binary(Box::new(Binary::new(
            Expr::Binary(Box::new(Binary::new(
                Expr::Literal(Literal::new(LiteralType::Number(num(5.0)))),
                Token {
                    line: 1,
                    lexeme: "*".to_string(),
                    kind: TokenType::Star,
                    literal: None,
                },
                Expr::Literal(Literal::new(LiteralType::Number(num(20.0)))),
            ))),
            Token {
                line: 1,
                lexeme: "==".to_string(),
                kind: TokenType::EqualEqual,
                literal: None,
            },
            Expr::Literal(Literal::new(LiteralType::Number(num(99.0)))),
        ))),
        Expr::Literal(Literal::new(LiteralType::Number(num(10.0)))),
        Expr::Ternary(Box::new(Ternary::new(
            Expr::Binary(Box::new(Binary::new(
                Expr::Literal(Literal::new(LiteralType::Number(num(3.0)))),
                Token {
                    line: 1,
                    lexeme: "<".to_string(),
                    kind: TokenType::Less,
                    literal: None,
                },
                Expr::Literal(Literal::new(LiteralType::Number(num(2.0)))),
            ))),
            Expr::Literal(Literal::new(LiteralType::Number(num(1.0)))),
            Expr::Literal(Literal::new(LiteralType::Number(num(0.0)))),
        ))),
    )));

    assert_eq!(parser.parse().unwrap(), expected);
}

#[test]
fn equality() {
    let tokens = Scanner::new("1 == 1".to_string()).scan_tokens(&number);

    let mut parser = Parser::new(tokens);
    let expected = Expr::Binary(Box::new(Binary::new(
        Expr::Literal(Literal::new(LiteralType::Number(num(1.0)))),
        Token {
            line: 1,
            lexeme: "==".to_string(),
            kind: TokenType::EqualEqual,
            literal: None,
        },
        Expr::Literal(Literal::new(LiteralType::Number(num(1.0)))),
    )));

    assert_eq!(parser.parse().unwrap(), expected);
}

#[test]
fn complex_grouping() {
    let tokens = Scanner::new("(1+10)/10+2 < 10*2".to_string()).scan_tokens(&number);

    let mut parser = Parser::new(tokens);
    let expected = Expr::Binary(Box::new(Binary::new(
        Expr::Binary(Box::new(Binary::new(
            Expr::Binary(Box::new(Binary::new(
                Expr::Grouping(Box::new(Grouping::new(Expr::Binary(Box::new(
                    Binary::new(
                        Expr::Literal(Literal::new(LiteralType::Number(num(1.0)))),
                        Token {
                            line: 1,
                            lexeme: "+".to_string(),
                            kind: TokenType::Plus,
                            literal: None,
                        },
                        Expr::Literal(Literal::new(LiteralType::Number(num(10.0)))),
                    ),
                ))))),
                Token {
                    line: 1,
                    lexeme: "/".to_string(),
                    kind: TokenType::Slash,
                    literal: None,
                },
                Expr::Literal(Literal::new(LiteralType::Number(num(10.0)))),
            ))),
            Token {
                line: 1,
                lexeme: "+".to_string(),
                kind: TokenType::Plus,
                literal: None,
            },
            Expr::Literal(Literal::new(LiteralType::Number(num(2.0)))),
        ))),
        Token {
            line: 1,
            lexeme: "<".to_string(),
            kind: TokenType::Less,
            literal: None,
        },
        Expr::Binary(Box::new(Binary::new(
            Expr::Literal(Literal::new(LiteralType::Number(num(10.0)))),
            Token {
                line: 1,
                lexeme: "*".to_string(),
                kind: TokenType::Star,
                literal: None,
            },
            Expr::Literal(Literal::new(LiteralType::Number(num(2.0)))),
        ))),
    )));

    let actual = parser.parse().unwrap();

    assert_eq!(actual, expected);
}

#[test]
fn ternary_associates_to_the_right() {
    let (tree, errors) = parse("1?2:3?4:5");
    let expected = Expr::Ternary(Box::new(Ternary::new(
        lit(1.0),
        lit(2.0),
        Expr::Ternary(Box::new(Ternary::new(lit(3.0), lit(4.0), lit(5.0)))),
    )));
    assert_eq!(tree.unwrap(), expected);
    assert!(errors.is_empty());
}

#[test]
fn ternary_nests_in_the_then_branch() {
    assert_eq!(
        printed("1 ? 2 ? 3 : 4 : 5"),
        "(ternary 1 ? (ternary 2 ? 3 : 4) : 5)"
    );
}

#[test]
fn ternary_of_identifiers_is_no_expression() {
    let (tree, errors) = parse("a?b:c?d:e");
    assert!(tree.is_none());
    assert_eq!(
        errors,
        vec![Error {
            line: 1,
            message: "expect expression".to_string(),
            place: " at 'a'".to_string(),
        }]
    );
}

#[test]
fn term_and_factor_associate_to_the_left() {
    assert_eq!(printed("1-2-3"), "(- (- 1 2) 3)");
    assert_eq!(printed("8/4/2"), "(/ (/ 8 4) 2)");
    assert_eq!(printed("1,2,3"), "(, (, 1 2) 3)");
}

#[test]
fn precedence_from_comma_to_primary() {
    assert_eq!(printed("1 + 2 * 3"), "(+ 1 (* 2 3))");
    assert_eq!(printed("1 * 2 + 3"), "(+ (* 1 2) 3)");
    assert_eq!(printed("1 < 2 == 3 > 4"), "(== (< 1 2) (> 3 4))");
    assert_eq!(printed("1 + 2 < 3 - 4"), "(< (+ 1 2) (- 3 4))");
    assert_eq!(printed("1 >= 2 != 3 <= 4"), "(!= (>= 1 2) (<= 3 4))");
    assert_eq!(printed("1 ? 2 : 3, 4"), "(, (ternary 1 ? 2 : 3) 4)");
    assert_eq!(printed("-1 * !2"), "(* (- 1) (! 2))");
}

#[test]
fn unary_operators_nest() {
    let (tree, _) = parse("--1");
    let expected = Expr::Unary(Box::new(Unary::new(
        op(TokenType::Minus, "-"),
        Expr::Unary(Box::new(Unary::new(op(TokenType::Minus, "-"), lit(1.0)))),
    )));
    assert_eq!(tree.unwrap(), expected);
    assert_eq!(printed("!-!1"), "(! (- (! 1)))");
}

#[test]
fn literals() {
    assert_eq!(
        parse("true").0.unwrap(),
        Expr::Literal(Literal::new(LiteralType::Bool(true)))
    );
    assert_eq!(
        parse("false").0.unwrap(),
        Expr::Literal(Literal::new(LiteralType::Bool(false)))
    );
    assert_eq!(parse("nil").0.unwrap(), Expr::Literal(Literal::new(LiteralType::Nil)));
    assert_eq!(
        parse("\"hi\"").0.unwrap(),
        Expr::Literal(Literal::new(LiteralType::String("hi".to_string())))
    );
    assert_eq!(parse("12.5").0.unwrap(), lit(12.5));
}

#[test]
fn missing_closing_parenthesis_is_an_error() {
    let (tree, errors) = parse("(1 + 2");
    assert!(tree.is_none());
    assert_eq!(
        errors,
        vec![Error {
            line: 1,
            message: "Expect ')' after expression".to_string(),
            place: " at the end".to_string(),
        }]
    );
}

#[test]
fn wrong_closing_token_is_an_error_at_that_token() {
    let (tree, errors) = parse("(1 + 2 }");
    assert!(tree.is_none());
    assert_eq!(
        errors,
        vec![Error {
            line: 1,
            message: "Expect ')' after expression".to_string(),
            place: " at '}'".to_string(),
        }]
    );
}

#[test]
fn missing_colon_is_an_error() {
    let (tree, errors) = parse("1 ? 2\n 3");
    assert!(tree.is_none());
    assert_eq!(
        errors,
        vec![Error {
            line: 2,
            message: "Expect ':' after ternary condition.".to_string(),
            place: " at '3'".to_string(),
        }]
    );
}

#[test]
fn empty_input_is_no_expression() {
    let (tree, errors) = parse("");
    assert!(tree.is_none());
    assert_eq!(
        errors,
        vec![Error {
            line: 1,
            message: "expect expression".to_string(),
            place: " at the end".to_string(),
        }]
    );
}

#[test]
fn operator_without_right_operand_is_an_error() {
    let (tree, errors) = parse("1 +\n*");
    assert!(tree.is_none());
    assert_eq!(
        errors,
        vec![Error {
            line: 2,
            message: "expect expression".to_string(),
            place: " at '*'".to_string(),
        }]
    );
}

#[test]
fn parse_stops_before_what_is_no_part_of_the_expression() {
    let tokens = Scanner::new("1 + 2 ) 3".to_string()).scan_tokens(&number);
    let mut parser = Parser::new(tokens);
    assert_eq!(
        parser.parse().unwrap().pretty_print(&number_text),
        "(+ 1 2)"
    );
    assert!(parser.parse().is_none());
    assert_eq!(
        parser.diagnostics().clone(),
        vec![Error {
            line: 1,
            message: "expect expression".to_string(),
            place: " at ')'".to_string(),
        }]
    );
}

#[test]
fn literal_token_without_a_value_gives_an_empty_literal() {
    let tokens = vec![
        Token { kind: TokenType::Number, lexeme: "1".to_string(), literal: None, line: 1 },
        Token { kind: TokenType::Eof, lexeme: String::new(), literal: None, line: 1 },
    ];
    let tree = Parser::new(tokens).parse().unwrap();
    assert_eq!(tree, Expr::Literal(Literal::holding(None)));
    assert_eq!(tree.pretty_print(&number_text), "Nil");
}

#[test]
fn synchronize_stops_behind_a_semicolon() {
    let tokens = Scanner::new("1 + ; 2 3".to_string()).scan_tokens(&number);
    let mut parser = Parser::new(tokens);
    assert!(parser.parse().is_none());
    parser.synchronize();
    assert_eq!(parser.parse().unwrap(), lit(2.0));
}

#[test]
fn synchronize_stops_before_a_statement_word() {
    for word in ["class", "fun", "var", "for", "if", "while", "print", "return"] {
        let source = format!("+ 1 2 {} 3", word);
        let tokens = Scanner::new(source).scan_tokens(&number);
        let mut parser = Parser::new(tokens);
        assert!(parser.parse().is_none());
        parser.synchronize();
        assert!(parser.parse().is_none());
        let errors = parser.diagnostics().clone();
        assert_eq!(errors.len(), 2);
        assert_eq!(errors[1].place, format!(" at '{}'", word));
    }
}

#[test]
fn synchronize_stops_at_the_end() {
    let tokens = Scanner::new("+ 1 2".to_string()).scan_tokens(&number);
    let mut parser = Parser::new(tokens);
    parser.synchronize();
    parser.synchronize();
    assert!(parser.parse().is_none());
    assert_eq!(parser.diagnostics()[0].place, " at the end");
}
