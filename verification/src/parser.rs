//! The parser: recursive descent over the tokens, one function for each level
//! of the grammar.

use crate::errors::{diagnostic, error, Error, ErrorView};
use crate::grammar::{
    chain, chain_rest, comma, comparison, equality, expression, factor, failed, is_operator,
    kind_at, operand, parsed, primary, rank, sync_from, synchronized, term, ternary, unary, Level,
    ParseErrorView, Parsed,
};
use crate::syntax_tree::{Binary, Expr, Grouping, Literal, Ternary, Unary};
use crate::tokens::{LiteralType, Token, TokenType, TokenView};
use vstd::prelude::*;

verus! {

/// A cursor over a sequence of tokens, and the diagnostics of the parses made
/// with it.
#[derive(Debug)]
pub struct Parser {
    tokens: Vec<Token>,
    current: usize,
    errors: Vec<Error>,
}

/// A parse error: the token at which the parse stopped, and why.
#[derive(Debug)]
pub struct ParseError {
    pub token: Token,
    pub message: String,
}

impl View for ParseError {
    type V = ParseErrorView;

    open spec fn view(&self) -> ParseErrorView {
        ParseErrorView { token: self.token@, message: self.message@ }
    }
}

/// Whether an end marker stands at `from` or behind it.
pub open spec fn has_end(tokens: Seq<TokenView>, from: int) -> bool {
    exists|i: int| 0 <= from <= i < tokens.len() && (#[trigger] tokens[i]).kind == TokenType::Eof
}

/// The kinds of the operators of the chain at `level`.
fn operators(level: Level) -> (kinds: Vec<TokenType>)
    ensures
        forall|kind: TokenType| kinds@.contains(kind) <==> is_operator(level, kind),
{
    let kinds = match level {
        Level::Factor => vec![TokenType::Slash, TokenType::Star],
        Level::Term => vec![TokenType::Minus, TokenType::Plus],
        Level::Comparison => vec![
            TokenType::Greater,
            TokenType::GreaterEqual,
            TokenType::Less,
            TokenType::LessEqual,
        ],
        Level::Equality => vec![TokenType::BangEqual, TokenType::EqualEqual],
        Level::Comma => vec![TokenType::Comma],
    };
    assert forall|kind: TokenType| is_operator(level, kind) implies kinds@.contains(kind) by {
        if kinds@.len() > 0 && kinds@[0] == kind {
        } else if kinds@.len() > 1 && kinds@[1] == kind {
        } else if kinds@.len() > 2 && kinds@[2] == kind {
        } else if kinds@.len() > 3 && kinds@[3] == kind {
        }
    }
    kinds
}

impl Parser {
    /// The tokens that are parsed.
    pub closed spec fn tokens(self) -> Seq<TokenView> {
        self.tokens.deep_view()
    }

    /// The position of the next token to look at.
    pub closed spec fn position(self) -> int {
        self.current as int
    }

    /// The diagnostics of the parses made so far.
    pub closed spec fn errors(self) -> Seq<ErrorView> {
        self.errors.deep_view()
    }

    /// An end marker stands at the cursor or behind it.
    pub closed spec fn well_formed(self) -> bool {
        has_end(self.tokens.deep_view(), self.current as int)
    }

    /// A parser at the first of `tokens`. An end marker has to be among them:
    /// the cursor never moves past one, and never runs off the tokens.
    pub fn new(tokens: Vec<Token>) -> (parser: Parser)
        requires
            has_end(tokens.deep_view(), 0),
        ensures
            parser.well_formed(),
            parser.tokens() == tokens.deep_view(),
            parser.position() == 0,
            parser.errors() == Seq::<ErrorView>::empty(),
    {
        let parser = Parser { tokens, current: 0, errors: Vec::new() };
        assert(parser.errors.deep_view() =~= Seq::<ErrorView>::empty());
        parser
    }

    /// The diagnostics of the parses made so far, in the order found.
    pub fn diagnostics(&self) -> (errors: &Vec<Error>)
        ensures
            errors.deep_view() == self.errors(),
    {
        &self.errors
    }

    /// `self` is `before` after the parse `p`, which gave `out`: the cursor is
    /// where the parse ended, and an error is among the diagnostics.
    spec fn yields(self, before: Parser, p: Parsed, out: Result<Expr, ParseError>) -> bool {
        &&& self.well_formed()
        &&& self.tokens == before.tokens
        &&& self.current == p.next
        &&& before.current <= self.current
        &&& match p.result {
            Ok(e) => out matches Ok(tree) && tree@ == e && self.errors == before.errors,
            Err(e) => out matches Err(stop) && stop@ == e && self.errors.deep_view()
                == before.errors.deep_view().push(diagnostic(e.token, e.message)),
        }
    }

    /// `self` is `before` but for the cursor.
    spec fn moved(self, before: Parser) -> bool {
        &&& self.well_formed()
        &&& self.tokens == before.tokens
        &&& self.errors == before.errors
    }

    /// The cursor is at a token.
    proof fn lemma_in_range(self)
        requires
            self.well_formed(),
        ensures
            self.current < self.tokens@.len(),
            self.tokens.deep_view().len() == self.tokens@.len(),
            self.tokens.deep_view()[self.current as int] == self.tokens@[self.current as int]@,
            kind_at(self.tokens.deep_view(), self.current as int)
                == self.tokens@[self.current as int].kind,
    {
    }

    /// Parses one expression. The result is the tree, or nothing when the
    /// tokens from the cursor on do not start with an expression; the error is
    /// then among the diagnostics.
    pub fn parse(&mut self) -> (tree: Option<Expr>)
        requires
            old(self).well_formed(),
        ensures
            final(self).well_formed(),
            final(self).tokens() == old(self).tokens(),
            final(self).position() == expression(old(self).tokens(), old(self).position()).next,
            match expression(old(self).tokens(), old(self).position()).result {
                Ok(e) => tree matches Some(t) && t@ == e && final(self).errors() == old(
                    self,
                ).errors(),
                Err(e) => tree is None && final(self).errors() == old(self).errors().push(
                    diagnostic(e.token, e.message),
                ),
            },
    {
        if let Ok(expr) = self.expression() {
            return Some(expr);
        }
        None
    }

    /// The level `expression` of the grammar.
    fn expression(&mut self) -> (out: Result<Expr, ParseError>)
        requires
            old(self).well_formed(),
        ensures
            final(self).yields(
                *old(self),
                expression(old(self).tokens.deep_view(), old(self).current as int),
                out,
            ),
        decreases old(self).tokens@.len() - old(self).current, 8int, 0int,
    {
        self.comma()
    }

    /// The level `comma` of the grammar.
    fn comma(&mut self) -> (out: Result<Expr, ParseError>)
        requires
            old(self).well_formed(),
        ensures
            final(self).yields(
                *old(self),
                comma(old(self).tokens.deep_view(), old(self).current as int),
                out,
            ),
        decreases old(self).tokens@.len() - old(self).current, 7int, 3int,
    {
        self.chain(Level::Comma)
    }

    /// The level `equality` of the grammar.
    fn equality(&mut self) -> (out: Result<Expr, ParseError>)
        requires
            old(self).well_formed(),
        ensures
            final(self).yields(
                *old(self),
                equality(old(self).tokens.deep_view(), old(self).current as int),
                out,
            ),
        decreases old(self).tokens@.len() - old(self).current, 5int, 3int,
    {
        self.chain(Level::Equality)
    }

    /// The level `comparison` of the grammar.
    fn comparison(&mut self) -> (out: Result<Expr, ParseError>)
        requires
            old(self).well_formed(),
        ensures
            final(self).yields(
                *old(self),
                comparison(old(self).tokens.deep_view(), old(self).current as int),
                out,
            ),
        decreases old(self).tokens@.len() - old(self).current, 4int, 3int,
    {
        self.chain(Level::Comparison)
    }

    /// The level `term` of the grammar.
    fn term(&mut self) -> (out: Result<Expr, ParseError>)
        requires
            old(self).well_formed(),
        ensures
            final(self).yields(
                *old(self),
                term(old(self).tokens.deep_view(), old(self).current as int),
                out,
            ),
        decreases old(self).tokens@.len() - old(self).current, 3int, 3int,
    {
        self.chain(Level::Term)
    }

    /// The level `factor` of the grammar.
    fn factor(&mut self) -> (out: Result<Expr, ParseError>)
        requires
            old(self).well_formed(),
        ensures
            final(self).yields(
                *old(self),
                factor(old(self).tokens.deep_view(), old(self).current as int),
                out,
            ),
        decreases old(self).tokens@.len() - old(self).current, 2int, 3int,
    {
        self.chain(Level::Factor)
    }

    /// An operand of the chain at `level`.
    fn operand(&mut self, level: Level) -> (out: Result<Expr, ParseError>)
        requires
            old(self).well_formed(),
        ensures
            final(self).yields(
                *old(self),
                operand(old(self).tokens.deep_view(), old(self).current as int, level),
                out,
            ),
        decreases old(self).tokens@.len() - old(self).current, rank(level), 0int,
    {
        match level {
            Level::Factor => self.unary(),
            Level::Term => self.factor(),
            Level::Comparison => self.term(),
            Level::Equality => self.comparison(),
            Level::Comma => self.ternary(),
        }
    }

    /// A chain of binary operators at `level`, associated to the left.
    fn chain(&mut self, level: Level) -> (out: Result<Expr, ParseError>)
        requires
            old(self).well_formed(),
        ensures
            final(self).yields(
                *old(self),
                chain(old(self).tokens.deep_view(), old(self).current as int, level),
                out,
            ),
        decreases old(self).tokens@.len() - old(self).current, rank(level), 2int,
    {
        let ghost tokens = self.tokens.deep_view();
        let ghost whole = chain(tokens, self.current as int, level);
        let kinds = operators(level);
        let mut expr = self.operand(level)?;
        proof {
            self.lemma_in_range();
        }
        while self.match_any(&kinds)
            invariant
                self.moved(*old(self)),
                tokens == self.tokens.deep_view(),
                old(self).current <= self.current,
                whole == chain(old(self).tokens.deep_view(), old(self).current as int, level),
                whole == chain_rest(tokens, expr@, self.current as int, level),
                forall|kind: TokenType| kinds@.contains(kind) <==> is_operator(level, kind),
            decreases self.tokens@.len() - self.current,
        {
            let op = self.previous();
            let right = self.operand(level)?;
            proof {
                self.lemma_in_range();
            }
            expr = Expr::Binary(Box::new(Binary::new(expr, op, right)));
        }
        Ok(expr)
    }

    /// The level `ternary` of the grammar.
    fn ternary(&mut self) -> (out: Result<Expr, ParseError>)
        requires
            old(self).well_formed(),
        ensures
            final(self).yields(
                *old(self),
                ternary(old(self).tokens.deep_view(), old(self).current as int),
                out,
            ),
        decreases old(self).tokens@.len() - old(self).current, 6int, 0int,
    {
        let condition = self.equality()?;
        proof {
            self.lemma_in_range();
        }
        // One `?` at most: the else-branch is a ternary itself and takes any
        // `?` that follows.
        if self.match_any(&vec![TokenType::Question]) {
            let then_branch = self.ternary()?;
            proof {
                self.lemma_in_range();
            }
            let _ = self.consume(
                TokenType::Colon,
                String::from_str("Expect ':' after ternary condition."),
            )?;
            let else_branch = self.ternary()?;
            return Ok(Expr::Ternary(Box::new(Ternary::new(condition, then_branch, else_branch))));
        }
        Ok(condition)
    }

    /// The level `unary` of the grammar.
    fn unary(&mut self) -> (out: Result<Expr, ParseError>)
        requires
            old(self).well_formed(),
        ensures
            final(self).yields(
                *old(self),
                unary(old(self).tokens.deep_view(), old(self).current as int),
                out,
            ),
        decreases old(self).tokens@.len() - old(self).current, 1int, 0int,
    {
        proof {
            self.lemma_in_range();
        }
        if self.match_any(&vec![TokenType::Bang, TokenType::Minus]) {
            let op = self.previous();
            let right = self.unary()?;
            return Ok(Expr::Unary(Box::new(Unary::new(op, right))));
        }
        self.primary()
    }

    /// The level `primary` of the grammar.
    fn primary(&mut self) -> (out: Result<Expr, ParseError>)
        requires
            old(self).well_formed(),
        ensures
            final(self).yields(
                *old(self),
                primary(old(self).tokens.deep_view(), old(self).current as int),
                out,
            ),
        decreases old(self).tokens@.len() - old(self).current, 0int, 0int,
    {
        proof {
            self.lemma_in_range();
        }
        if self.match_any(&vec![TokenType::False]) {
            return Ok(Expr::Literal(Literal::new(LiteralType::Bool(false))));
        }
        if self.match_any(&vec![TokenType::True]) {
            return Ok(Expr::Literal(Literal::new(LiteralType::Bool(true))));
        }
        if self.match_any(&vec![TokenType::Nil]) {
            return Ok(Expr::Literal(Literal::new(LiteralType::Nil)));
        }
        if self.match_any(&vec![TokenType::Number, TokenType::String]) {
            let prev = self.previous();
            return Ok(Expr::Literal(Literal::holding(prev.literal)));
        }
        if self.match_any(&vec![TokenType::LeftParen]) {
            let inner = self.expression()?;
            proof {
                self.lemma_in_range();
            }
            let _ = self.consume(
                TokenType::RightParen,
                String::from_str("Expect ')' after expression"),
            )?;
            return Ok(Expr::Grouping(Box::new(Grouping::new(inner))));
        }
        let token = self.peek().duplicate();
        let e = self.error(token, String::from_str("expect expression"));
        Err(e)
    }

    /// Moves past the next token if its kind is one of `kinds`.
    fn match_any(&mut self, kinds: &Vec<TokenType>) -> (found: bool)
        requires
            old(self).well_formed(),
        ensures
            final(self).moved(*old(self)),
            found == (kinds@.contains(
                kind_at(old(self).tokens.deep_view(), old(self).current as int),
            ) && kind_at(old(self).tokens.deep_view(), old(self).current as int)
                != TokenType::Eof),
            final(self).current == if found {
                old(self).current + 1
            } else {
                old(self).current as int
            },
    {
        proof {
            self.lemma_in_range();
        }
        let mut i: usize = 0;
        while i < kinds.len()
            invariant
                *self == *old(self),
                self.well_formed(),
                i <= kinds@.len(),
                forall|k: int|
                    0 <= k < i ==> !(kinds@[k] == kind_at(
                        self.tokens.deep_view(),
                        self.current as int,
                    ) && kinds@[k] != TokenType::Eof),
            decreases kinds@.len() - i,
        {
            if self.check(kinds[i]) {
                let _ = self.advance();
                return true;
            }
            i += 1;
        }
        false
    }

    /// Moves to the next point at which a statement can start: behind a
    /// semicolon, or before a reserved word that begins a statement.
    pub fn synchronize(&mut self)
        requires
            old(self).well_formed(),
        ensures
            final(self).well_formed(),
            final(self).tokens() == old(self).tokens(),
            final(self).errors() == old(self).errors(),
            final(self).position() == synchronized(old(self).tokens(), old(self).position()),
    {
        let ghost tokens = self.tokens.deep_view();
        proof {
            self.lemma_in_range();
        }
        let _ = self.advance();
        while !self.is_at_end()
            invariant
                self.moved(*old(self)),
                tokens == self.tokens.deep_view(),
                synchronized(tokens, old(self).current as int) == sync_from(
                    tokens,
                    self.current as int,
                ),
            decreases self.tokens@.len() - self.current,
        {
            proof {
                self.lemma_in_range();
            }
            if self.current > 0 && self.tokens[self.current - 1].kind == TokenType::Semicolon {
                return ;
            }
            match self.peek().kind {
                TokenType::Class
                | TokenType::Fun
                | TokenType::Var
                | TokenType::For
                | TokenType::If
                | TokenType::While
                | TokenType::Print
                | TokenType::Return => {
                    return ;
                },
                _ => (),
            }
            let _ = self.advance();
        }
        proof {
            self.lemma_in_range();
        }
    }

    /// Moves past the next token if it is of kind `t`, and fails with
    /// `message` otherwise.
    fn consume(&mut self, t: TokenType, message: String) -> (out: Result<Token, ParseError>)
        requires
            old(self).well_formed(),
            t != TokenType::Eof,
        ensures
            final(self).well_formed(),
            final(self).tokens == old(self).tokens,
            kind_at(old(self).tokens.deep_view(), old(self).current as int) == t ==> out is Ok
                && final(self).current == old(self).current + 1 && final(self).errors == old(
                self,
            ).errors,
            kind_at(old(self).tokens.deep_view(), old(self).current as int) != t ==> (out matches
            Err(stop) && stop@ == failed(
                old(self).tokens.deep_view(),
                old(self).current as int,
                message@,
            ).result->Err_0 && final(self).current == old(self).current
                && final(self).errors.deep_view() == old(self).errors.deep_view().push(
                diagnostic(stop@.token, stop@.message),
            )),
    {
        proof {
            self.lemma_in_range();
        }
        if self.check(t) {
            return Ok(self.advance());
        }
        let token = self.peek().duplicate();
        let e = self.error(token, message);
        Err(e)
    }

    /// Whether the next token is of kind `t`, and not the end marker.
    fn check(&self, t: TokenType) -> (b: bool)
        requires
            self.well_formed(),
        ensures
            b == (kind_at(self.tokens.deep_view(), self.current as int) == t && t
                != TokenType::Eof),
    {
        proof {
            self.lemma_in_range();
        }
        if self.is_at_end() {
            return false;
        }
        self.peek().kind == t
    }

    /// Moves past the next token, unless it is the end marker, and gives the
    /// token before the cursor.
    fn advance(&mut self) -> (token: Token)
        requires
            old(self).well_formed(),
        ensures
            final(self).moved(*old(self)),
            final(self).current == if kind_at(
                old(self).tokens.deep_view(),
                old(self).current as int,
            ) == TokenType::Eof {
                old(self).current as int
            } else {
                old(self).current + 1
            },
            token@ == old(self).tokens.deep_view()[if final(self).current > 0 {
                final(self).current - 1
            } else {
                0
            }],
    {
        proof {
            self.lemma_in_range();
        }
        if !self.is_at_end() {
            let ghost end = choose|i: int|
                self.current <= i < self.tokens@.len() && (
                #[trigger] self.tokens.deep_view()[i]).kind == TokenType::Eof;
            assert(self.tokens@.len() == self.tokens.len());
            self.current += 1;
            assert(self.tokens.deep_view()[end].kind == TokenType::Eof);
        }
        if self.current > 0 {
            self.previous()
        } else {
            self.peek().duplicate()
        }
    }

    /// Whether the next token is the end marker.
    fn is_at_end(&self) -> (b: bool)
        requires
            self.well_formed(),
        ensures
            b == (kind_at(self.tokens.deep_view(), self.current as int) == TokenType::Eof),
    {
        proof {
            self.lemma_in_range();
        }
        matches!(self.peek().kind, TokenType::Eof)
    }

    /// The next token.
    fn peek(&self) -> (token: &Token)
        requires
            self.well_formed(),
        ensures
            token@ == self.tokens.deep_view()[self.current as int],
    {
        proof {
            self.lemma_in_range();
        }
        &self.tokens[self.current]
    }

    /// The token before the cursor.
    fn previous(&self) -> (token: Token)
        requires
            self.well_formed(),
            self.current > 0,
        ensures
            token@ == self.tokens.deep_view()[self.current - 1],
    {
        proof {
            self.lemma_in_range();
        }
        self.tokens[self.current - 1].duplicate()
    }

    /// Records the diagnostic of an error at `token` and gives the error.
    fn error(&mut self, token: Token, message: String) -> (stop: ParseError)
        requires
            old(self).well_formed(),
        ensures
            final(self).well_formed(),
            final(self).tokens == old(self).tokens,
            final(self).current == old(self).current,
            final(self).errors.deep_view() == old(self).errors.deep_view().push(
                diagnostic(token@, message@),
            ),
            stop@ == (ParseErrorView { token: token@, message: message@ }),
    {
        let e = error(&token, &message);
        self.errors.push(e);
        assert(self.errors.deep_view() =~= old(self).errors.deep_view().push(e@));
        ParseError { token, message }
    }
}

} // verus!
