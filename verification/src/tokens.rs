//! The vocabulary of the language: the kinds of token, the literal values a
//! token can carry, and the token record itself.

use crate::number::Number;
use vstd::prelude::*;

verus! {

/// The lexical categories.
#[derive(Clone, Copy, Debug, PartialEq, Eq, PartialOrd, Structural)]
pub enum TokenType {
    // Single character tokens.
    LeftParen,
    RightParen,
    LeftBrace,
    RightBrace,
    Comma,
    Dot,
    Minus,
    Plus,
    Semicolon,
    Colon,
    Slash,
    Star,
    Question,
    // One or two character tokens.
    Bang,
    BangEqual,
    Equal,
    EqualEqual,
    Greater,
    GreaterEqual,
    Less,
    LessEqual,
    // Literals.
    Identifier,
    String,
    Number,
    // Reserved words.
    And,
    Class,
    Else,
    False,
    Fun,
    For,
    If,
    Nil,
    Or,
    Print,
    Return,
    Super,
    This,
    True,
    Var,
    While,
    // End of input.
    Eof,
}

/// A literal value: what a number or string token carries, and what a literal
/// node of the tree holds.
#[derive(Clone, Debug, PartialEq)]
pub enum LiteralType {
    Number(Number),
    String(String),
    Bool(bool),
    Nil,
}

/// What a `LiteralType` stands for.
pub enum LiteralView {
    Number(Number),
    String(Seq<char>),
    Bool(bool),
    Nil,
}

impl View for LiteralType {
    type V = LiteralView;

    open spec fn view(&self) -> LiteralView {
        match self {
            LiteralType::Number(n) => LiteralView::Number(*n),
            LiteralType::String(s) => LiteralView::String(s@),
            LiteralType::Bool(b) => LiteralView::Bool(*b),
            LiteralType::Nil => LiteralView::Nil,
        }
    }
}

impl DeepView for LiteralType {
    type V = LiteralView;

    open spec fn deep_view(&self) -> LiteralView {
        self.view()
    }
}

/// A token: its kind, the exact text it was recognised from, the literal value
/// of a number or string token, and the line (from 1) on which it ended.
#[derive(Clone, Debug, PartialEq)]
pub struct Token {
    pub kind: TokenType,
    pub lexeme: String,
    pub literal: Option<LiteralType>,
    pub line: u64,
}

/// What a `Token` stands for.
pub struct TokenView {
    pub kind: TokenType,
    pub lexeme: Seq<char>,
    pub literal: Option<LiteralView>,
    pub line: u64,
}

impl View for Token {
    type V = TokenView;

    open spec fn view(&self) -> TokenView {
        TokenView {
            kind: self.kind,
            lexeme: self.lexeme@,
            literal: self.literal.deep_view(),
            line: self.line,
        }
    }
}

impl DeepView for Token {
    type V = TokenView;

    open spec fn deep_view(&self) -> TokenView {
        self.view()
    }
}

/// The textual form of a literal that is no number: a string is its own
/// text, a boolean is `true` or `false`, and nil is `nil`.
pub open spec fn plain_text(l: LiteralView) -> Seq<char>
    recommends
        !(l is Number),
{
    match l {
        LiteralView::String(s) => s,
        LiteralView::Bool(b) => if b {
            "true"@
        } else {
            "false"@
        },
        _ => "nil"@,
    }
}

/// The textual form of a literal, `number_text` being the text of a number.
pub open spec fn literal_text(l: LiteralView, number_text: spec_fn(Number) -> Seq<char>) -> Seq<
    char,
> {
    match l {
        LiteralView::Number(n) => number_text(n),
        _ => plain_text(l),
    }
}

/// `f` gave the text `s` for the number `n`.
pub open spec fn wrote<F: Fn(Number) -> String>(f: &F, n: Number, s: Seq<char>) -> bool {
    exists|t: String| t@ == s && call_ensures(*f, (n,), t)
}

/// `s` is a textual form of the literal, where `f` renders the numbers: for a
/// number a text that `f` gave for it, and else the text of the literal.
pub open spec fn literal_prints<F: Fn(Number) -> String>(
    f: &F,
    l: LiteralView,
    s: Seq<char>,
) -> bool {
    match l {
        LiteralView::Number(n) => wrote(f, n, s),
        _ => s == plain_text(l),
    }
}

/// `m` says what text the function `f` gives for each number.
pub open spec fn models_text<F: Fn(Number) -> String>(
    f: &F,
    m: spec_fn(Number) -> Seq<char>,
) -> bool {
    forall|n: Number, s: String| call_ensures(*f, (n,), s) ==> s@ == m(n)
}

/// The name of a kind, as it is written in this vocabulary.
pub open spec fn kind_name(kind: TokenType) -> Seq<char> {
    match kind {
        TokenType::LeftParen => "LeftParen"@,
        TokenType::RightParen => "RightParen"@,
        TokenType::LeftBrace => "LeftBrace"@,
        TokenType::RightBrace => "RightBrace"@,
        TokenType::Comma => "Comma"@,
        TokenType::Dot => "Dot"@,
        TokenType::Minus => "Minus"@,
        TokenType::Plus => "Plus"@,
        TokenType::Semicolon => "Semicolon"@,
        TokenType::Colon => "Colon"@,
        TokenType::Slash => "Slash"@,
        TokenType::Star => "Star"@,
        TokenType::Question => "Question"@,
        TokenType::Bang => "Bang"@,
        TokenType::BangEqual => "BangEqual"@,
        TokenType::Equal => "Equal"@,
        TokenType::EqualEqual => "EqualEqual"@,
        TokenType::Greater => "Greater"@,
        TokenType::GreaterEqual => "GreaterEqual"@,
        TokenType::Less => "Less"@,
        TokenType::LessEqual => "LessEqual"@,
        TokenType::Identifier => "Identifier"@,
        TokenType::String => "String"@,
        TokenType::Number => "Number"@,
        TokenType::And => "And"@,
        TokenType::Class => "Class"@,
        TokenType::Else => "Else"@,
        TokenType::False => "False"@,
        TokenType::Fun => "Fun"@,
        TokenType::For => "For"@,
        TokenType::If => "If"@,
        TokenType::Nil => "Nil"@,
        TokenType::Or => "Or"@,
        TokenType::Print => "Print"@,
        TokenType::Return => "Return"@,
        TokenType::Super => "Super"@,
        TokenType::This => "This"@,
        TokenType::True => "True"@,
        TokenType::Var => "Var"@,
        TokenType::While => "While"@,
        TokenType::Eof => "Eof"@,
    }
}

impl TokenType {
    /// The name of the kind.
    pub fn name(&self) -> (s: String)
        ensures
            s@ == kind_name(*self),
    {
        let name = match self {
            TokenType::LeftParen => "LeftParen",
            TokenType::RightParen => "RightParen",
            TokenType::LeftBrace => "LeftBrace",
            TokenType::RightBrace => "RightBrace",
            TokenType::Comma => "Comma",
            TokenType::Dot => "Dot",
            TokenType::Minus => "Minus",
            TokenType::Plus => "Plus",
            TokenType::Semicolon => "Semicolon",
            TokenType::Colon => "Colon",
            TokenType::Slash => "Slash",
            TokenType::Star => "Star",
            TokenType::Question => "Question",
            TokenType::Bang => "Bang",
            TokenType::BangEqual => "BangEqual",
            TokenType::Equal => "Equal",
            TokenType::EqualEqual => "EqualEqual",
            TokenType::Greater => "Greater",
            TokenType::GreaterEqual => "GreaterEqual",
            TokenType::Less => "Less",
            TokenType::LessEqual => "LessEqual",
            TokenType::Identifier => "Identifier",
            TokenType::String => "String",
            TokenType::Number => "Number",
            TokenType::And => "And",
            TokenType::Class => "Class",
            TokenType::Else => "Else",
            TokenType::False => "False",
            TokenType::Fun => "Fun",
            TokenType::For => "For",
            TokenType::If => "If",
            TokenType::Nil => "Nil",
            TokenType::Or => "Or",
            TokenType::Print => "Print",
            TokenType::Return => "Return",
            TokenType::Super => "Super",
            TokenType::This => "This",
            TokenType::True => "True",
            TokenType::Var => "Var",
            TokenType::While => "While",
            TokenType::Eof => "Eof",
        };
        String::from_str(name)
    }
}

/// `f` can be called on every number.
pub open spec fn writes_numbers<F: Fn(Number) -> String>(f: &F) -> bool {
    forall|n: Number| call_requires(*f, (n,))
}

impl LiteralType {
    /// A copy with the same view.
    pub fn duplicate(&self) -> (l: LiteralType)
        ensures
            l@ == self@,
    {
        match self {
            LiteralType::Number(n) => LiteralType::Number(*n),
            LiteralType::String(s) => LiteralType::String(s.clone()),
            LiteralType::Bool(b) => LiteralType::Bool(*b),
            LiteralType::Nil => LiteralType::Nil,
        }
    }

    /// The textual form of the literal; `number_text` renders a number.
    pub fn text<F: Fn(Number) -> String>(&self, number_text: &F) -> (s: String)
        requires
            writes_numbers(number_text),
        ensures
            literal_prints(number_text, self@, s@),
            forall|m: spec_fn(Number) -> Seq<char>| #[trigger]
                models_text(number_text, m) ==> s@ == literal_text(self@, m),
    {
        match self {
            LiteralType::Number(n) => number_text(*n),
            LiteralType::String(s) => s.clone(),
            LiteralType::Bool(b) => if *b {
                String::from_str("true")
            } else {
                String::from_str("false")
            },
            LiteralType::Nil => String::from_str("nil"),
        }
    }
}

impl Token {
    /// A copy with the same view.
    pub fn duplicate(&self) -> (t: Token)
        ensures
            t@ == self@,
    {
        let literal = match &self.literal {
            Some(l) => Some(l.duplicate()),
            None => None,
        };
        Token { kind: self.kind, lexeme: self.lexeme.clone(), literal, line: self.line }
    }
}

} // verus!
