use tree_walker::number::Number;
use tree_walker::parser::Parser;
use tree_walker::scanner::Scanner;
use tree_walker::syntax_tree::{
    ast_print, Binary, Expr, Grouping, Literal, PrettyPrint, Ternary, Unary,
};
use tree_walker::tokens::{LiteralType, Token, TokenType};

fn number(lexeme: &str) -> Number {
    Number::from_bits(lexeme.parse::<f64>().unwrap().to_bits())
}

fn num(x: f64) -> Number {
    Number::from_bits(x.to_bits())
}

fn number_text(n: Number) -> String {
    format!("{}", f64::from_bits(n.to_bits()))
}

fn lit(x: f64) -> Expr {
    Expr::Literal(Literal::new(LiteralType::Number(num(x))))
}

fn op(kind: TokenType, lexeme: &str) -> Token {
    Token { line: 1, lexeme: lexeme.to_string(), kind, literal: None }
}

#[test]
fn grouping_of_a_negation_prints_in_prefix_form() {
    let tokens = Scanner::new("(-1)".to_string()).scan_tokens(&number);
    let tree = Parser::new(tokens).parse().unwrap();
    assert_eq!(tree.pretty_print(&number_text), "(group (- 1))");
}

#[test]
fn product_of_a_negation_and_a_group() {
    let e = Expr::Binary(Box::new(Binary::new(
        Expr::Unary(Box::new(Unary::new(op(TokenType::Minus, "-"), lit(123.0)))),
        op(TokenType::Star, "*"),
        Expr::Grouping(Box::new(Grouping::new(lit(45.67)))),
    )));
    assert_eq!(e.pretty_print(&number_text), "(* (- 123) (group 45.67))");
    assert_eq!(ast_print(e, &number_text), "(* (- 123) (group 45.67))");
}

#[test]
fn ternary_prints_its_three_parts() {
    let e = Ternary::new(
        Expr::Literal(Literal::new(LiteralType::Bool(true))),
        lit(1.0),
        Expr::Literal(Literal::new(LiteralType::Nil)),
    );
    assert_eq!(e.pretty_print(&number_text), "(ternary true ? 1 : nil)");
}

#[test]
fn literals_print_their_textual_form() {
    assert_eq!(Literal::new(LiteralType::Nil).pretty_print(&number_text), "nil");
    assert_eq!(Literal::new(LiteralType::Bool(false)).pretty_print(&number_text), "false");
    assert_eq!(Literal::new(LiteralType::Bool(true)).pretty_print(&number_text), "true");
    assert_eq!(
        Literal::new(LiteralType::String("a b".to_string())).pretty_print(&number_text),
        "a b"
    );
    assert_eq!(Literal::new(LiteralType::Number(num(0.5))).pretty_print(&number_text), "0.5");
    assert_eq!(Literal::holding(None).pretty_print(&number_text), "Nil");
}

#[test]
fn literal_text_of_each_variant() {
    assert_eq!(LiteralType::Number(num(2.0)).text(&number_text), "2");
    assert_eq!(LiteralType::String("x".to_string()).text(&number_text), "x");
    assert_eq!(LiteralType::Bool(true).text(&number_text), "true");
    assert_eq!(LiteralType::Nil.text(&number_text), "nil");
}

#[test]
fn each_node_prints_as_the_expression_that_holds_it() {
    let u = Unary::new(op(TokenType::Bang, "!"), lit(1.0));
    assert_eq!(u.pretty_print(&number_text), "(! 1)");
    let g = Grouping::new(lit(2.0));
    assert_eq!(g.pretty_print(&number_text), "(group 2)");
    let b = Binary::new(lit(1.0), op(TokenType::Comma, ","), lit(2.0));
    assert_eq!(b.pretty_print(&number_text), "(, 1 2)");
}
