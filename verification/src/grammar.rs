//! What parsing means: the grammar of expressions as functions from a
//! sequence of tokens and a position to a tree and the position behind it.
//!
//! From the lowest precedence to the highest:
//!
//! ```text
//! expression := comma
//! comma      := ternary ( "," ternary )*
//! ternary    := equality ( "?" ternary ":" ternary )?
//! equality   := comparison ( ( "!=" | "==" ) comparison )*
//! comparison := term ( ( ">" | ">=" | "<" | "<=" ) term )*
//! term       := factor ( ( "-" | "+" ) factor )*
//! factor     := unary ( ( "/" | "*" ) unary )*
//! unary      := ( "!" | "-" ) unary | primary
//! primary    := "false" | "true" | "nil" | NUMBER | STRING | "(" expression ")"
//! ```
//!
//! The chains of binary operators associate to the left.

use crate::syntax_tree::ExprView;
use crate::tokens::{LiteralView, TokenType, TokenView};
use vstd::prelude::*;

verus! {

/// A parse error: the token at which the parse stopped, and why.
pub struct ParseErrorView {
    pub token: TokenView,
    pub message: Seq<char>,
}

/// What parsing from a position gives: the tree or the error, and the
/// position of the first token that was not consumed.
pub struct Parsed {
    pub result: Result<ExprView, ParseErrorView>,
    pub next: int,
}

/// The kind of the token at `pos`; behind the last token, the end marker.
pub open spec fn kind_at(tokens: Seq<TokenView>, pos: int) -> TokenType {
    if 0 <= pos < tokens.len() {
        tokens[pos].kind
    } else {
        TokenType::Eof
    }
}

/// The tree `e`, with `next` the first token behind it.
pub open spec fn parsed(e: ExprView, next: int) -> Parsed {
    Parsed { result: Ok(e), next }
}

/// The error `message` at the token at `pos`.
pub open spec fn failed(tokens: Seq<TokenView>, pos: int, message: Seq<char>) -> Parsed {
    Parsed { result: Err(ParseErrorView { token: tokens[pos], message }), next: pos }
}

/// The levels of the grammar that are chains of binary operators.
#[derive(Clone, Copy, Debug, PartialEq, Eq)]
pub enum Level {
    Factor,
    Term,
    Comparison,
    Equality,
    Comma,
}

/// Where a level stands among the nine levels of the grammar, `primary`
/// being 0.
pub open spec fn rank(level: Level) -> int {
    match level {
        Level::Factor => 2,
        Level::Term => 3,
        Level::Comparison => 4,
        Level::Equality => 5,
        Level::Comma => 7,
    }
}

/// Whether a token of `kind` is an operator of the chain at `level`.
pub open spec fn is_operator(level: Level, kind: TokenType) -> bool {
    match level {
        Level::Factor => kind == TokenType::Slash || kind == TokenType::Star,
        Level::Term => kind == TokenType::Minus || kind == TokenType::Plus,
        Level::Comparison => kind == TokenType::Greater || kind == TokenType::GreaterEqual || kind
            == TokenType::Less || kind == TokenType::LessEqual,
        Level::Equality => kind == TokenType::BangEqual || kind == TokenType::EqualEqual,
        Level::Comma => kind == TokenType::Comma,
    }
}

/// Whether `next` is a position from `from` on, at most behind the last token.
pub open spec fn ahead(tokens: Seq<TokenView>, from: int, next: int) -> bool {
    from <= next <= tokens.len()
}

/// `primary`: a literal, or an expression in parentheses.
pub open spec fn primary(tokens: Seq<TokenView>, pos: int) -> Parsed
    decreases tokens.len() - pos, 0int, 0int,
{
    let kind = kind_at(tokens, pos);
    if kind == TokenType::False {
        parsed(ExprView::Literal(Some(LiteralView::Bool(false))), pos + 1)
    } else if kind == TokenType::True {
        parsed(ExprView::Literal(Some(LiteralView::Bool(true))), pos + 1)
    } else if kind == TokenType::Nil {
        parsed(ExprView::Literal(Some(LiteralView::Nil)), pos + 1)
    } else if kind == TokenType::Number || kind == TokenType::String {
        parsed(ExprView::Literal(tokens[pos].literal), pos + 1)
    } else if kind == TokenType::LeftParen {
        let inner = expression(tokens, pos + 1);
        match inner.result {
            Ok(e) => if kind_at(tokens, inner.next) == TokenType::RightParen {
                parsed(ExprView::Grouping(Box::new(e)), inner.next + 1)
            } else {
                failed(tokens, inner.next, "Expect ')' after expression"@)
            },
            Err(_) => inner,
        }
    } else {
        failed(tokens, pos, "expect expression"@)
    }
}

/// `unary`: any number of `!` and `-` before a primary.
pub open spec fn unary(tokens: Seq<TokenView>, pos: int) -> Parsed
    decreases tokens.len() - pos, 1int, 0int,
{
    let kind = kind_at(tokens, pos);
    if kind == TokenType::Bang || kind == TokenType::Minus {
        let right = unary(tokens, pos + 1);
        match right.result {
            Ok(e) => parsed(ExprView::Unary(tokens[pos], Box::new(e)), right.next),
            Err(_) => right,
        }
    } else {
        primary(tokens, pos)
    }
}

/// An operand of the chain at `level`: what the next higher level parses.
pub open spec fn operand(tokens: Seq<TokenView>, pos: int, level: Level) -> Parsed
    decreases tokens.len() - pos, rank(level), 0int,
{
    match level {
        Level::Factor => unary(tokens, pos),
        Level::Term => chain(tokens, pos, Level::Factor),
        Level::Comparison => chain(tokens, pos, Level::Term),
        Level::Equality => chain(tokens, pos, Level::Comparison),
        Level::Comma => ternary(tokens, pos),
    }
}

/// A chain at `level`: an operand, then operators of the level with an
/// operand each, as many as follow.
pub open spec fn chain(tokens: Seq<TokenView>, pos: int, level: Level) -> Parsed
    decreases tokens.len() - pos, rank(level), 2int,
{
    let first = operand(tokens, pos, level);
    match first.result {
        // an operand ends at or behind its start: the test is there for the
        // definition to be well founded, and never fails
        Ok(e) => if ahead(tokens, pos, first.next) {
            chain_rest(tokens, e, first.next, level)
        } else {
            first
        },
        Err(_) => first,
    }
}

/// The rest of a chain at `level`, behind the operands that make up `left`.
pub open spec fn chain_rest(
    tokens: Seq<TokenView>,
    left: ExprView,
    pos: int,
    level: Level,
) -> Parsed
    decreases tokens.len() - pos, rank(level), 1int,
{
    if is_operator(level, kind_at(tokens, pos)) {
        let right = operand(tokens, pos + 1, level);
        match right.result {
            // as in `chain`
            Ok(e) => if ahead(tokens, pos + 1, right.next) {
                chain_rest(
                    tokens,
                    ExprView::Binary(Box::new(left), tokens[pos], Box::new(e)),
                    right.next,
                    level,
                )
            } else {
                right
            },
            Err(_) => right,
        }
    } else {
        parsed(left, pos)
    }
}

/// `ternary`: an equality, or an equality as the condition of `? :`, whose
/// two branches are ternaries themselves.
pub open spec fn ternary(tokens: Seq<TokenView>, pos: int) -> Parsed
    decreases tokens.len() - pos, 6int, 0int,
{
    let condition = chain(tokens, pos, Level::Equality);
    match condition.result {
        // as in `chain`
        Ok(c) => if kind_at(tokens, condition.next) == TokenType::Question && ahead(
            tokens,
            pos,
            condition.next,
        ) {
            let then_branch = ternary(tokens, condition.next + 1);
            match then_branch.result {
                Ok(t) => if kind_at(tokens, then_branch.next) == TokenType::Colon && ahead(
                    tokens,
                    pos,
                    then_branch.next,
                ) {
                    let else_branch = ternary(tokens, then_branch.next + 1);
                    match else_branch.result {
                        Ok(e) => parsed(
                            ExprView::Ternary(Box::new(c), Box::new(t), Box::new(e)),
                            else_branch.next,
                        ),
                        Err(_) => else_branch,
                    }
                } else {
                    failed(tokens, then_branch.next, "Expect ':' after ternary condition."@)
                },
                Err(_) => then_branch,
            }
        } else {
            condition
        },
        Err(_) => condition,
    }
}

/// `factor`: unary expressions joined by `/` and `*`.
pub open spec fn factor(tokens: Seq<TokenView>, pos: int) -> Parsed {
    chain(tokens, pos, Level::Factor)
}

/// `term`: factors joined by `-` and `+`.
pub open spec fn term(tokens: Seq<TokenView>, pos: int) -> Parsed {
    chain(tokens, pos, Level::Term)
}

/// `comparison`: terms joined by `>`, `>=`, `<` and `<=`.
pub open spec fn comparison(tokens: Seq<TokenView>, pos: int) -> Parsed {
    chain(tokens, pos, Level::Comparison)
}

/// `equality`: comparisons joined by `!=` and `==`.
pub open spec fn equality(tokens: Seq<TokenView>, pos: int) -> Parsed {
    chain(tokens, pos, Level::Equality)
}

/// `comma`: ternaries joined by `,`.
pub open spec fn comma(tokens: Seq<TokenView>, pos: int) -> Parsed {
    chain(tokens, pos, Level::Comma)
}

/// `expression`: the lowest level of the grammar.
pub open spec fn expression(tokens: Seq<TokenView>, pos: int) -> Parsed
    decreases tokens.len() - pos, 8int, 0int,
{
    chain(tokens, pos, Level::Comma)
}

/// Whether a reserved word of `kind` begins a statement.
pub open spec fn begins_statement(kind: TokenType) -> bool {
    kind == TokenType::Class || kind == TokenType::Fun || kind == TokenType::Var || kind
        == TokenType::For || kind == TokenType::If || kind == TokenType::While || kind
        == TokenType::Print || kind == TokenType::Return
}

/// The first position from `pos` on that is the end marker, stands behind a
/// semicolon, or holds a reserved word that begins a statement.
pub open spec fn sync_from(tokens: Seq<TokenView>, pos: int) -> int
    decreases tokens.len() - pos,
{
    if kind_at(tokens, pos) == TokenType::Eof {
        pos
    } else if pos > 0 && tokens[pos - 1].kind == TokenType::Semicolon {
        pos
    } else if begins_statement(kind_at(tokens, pos)) {
        pos
    } else {
        sync_from(tokens, pos + 1)
    }
}

/// Where the cursor stands after synchronising from `pos`: the token at `pos`
/// is skipped, unless it is the end marker, and then the tokens up to the
/// next point at which a statement can start.
pub open spec fn synchronized(tokens: Seq<TokenView>, pos: int) -> int {
    if kind_at(tokens, pos) == TokenType::Eof {
        pos
    } else {
        sync_from(tokens, pos + 1)
    }
}

} // verus!
