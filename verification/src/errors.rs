//! Diagnostics: the record of a lexical or parse error with its one-line
//! rendering, and the error that stops an evaluation.

use crate::text::{decimal, decimal_text};
use crate::tokens::{Token, TokenType, TokenView};
use vstd::prelude::*;

verus! {

/// A diagnostic: the line it belongs to, what went wrong, and where on the
/// line (empty, ` at the end`, or ` at '<lexeme>'`).
#[derive(Clone, Debug, PartialEq)]
pub struct Error {
    pub line: u64,
    pub message: String,
    pub place: String,
}

/// What an `Error` stands for.
pub struct ErrorView {
    pub line: u64,
    pub message: Seq<char>,
    pub place: Seq<char>,
}

impl View for Error {
    type V = ErrorView;

    open spec fn view(&self) -> ErrorView {
        ErrorView { line: self.line, message: self.message@, place: self.place@ }
    }
}

impl DeepView for Error {
    type V = ErrorView;

    open spec fn deep_view(&self) -> ErrorView {
        self.view()
    }
}

/// The line that shows a diagnostic: `[line <N>] Error<place>: <message>`.
pub open spec fn report_line(e: ErrorView) -> Seq<char> {
    "[line "@ + decimal(e.line as nat) + "] Error"@ + e.place + ": "@ + e.message
}

/// The diagnostic for `message` at `token`: on the token's line, placed at the
/// end for the end marker and at the token's lexeme otherwise.
pub open spec fn diagnostic(token: TokenView, message: Seq<char>) -> ErrorView {
    ErrorView {
        line: token.line,
        message,
        place: if token.kind == TokenType::Eof {
            " at the end"@
        } else {
            " at '"@ + token.lexeme + "'"@
        },
    }
}

/// Renders a diagnostic as the one line that is shown for it.
pub fn report(e: Error) -> (line: String)
    ensures
        line@ == report_line(e@),
{
    let mut line = String::from_str("[line ");
    let number = decimal_text(e.line);
    line.append(number.as_str());
    line.append("] Error");
    line.append(e.place.as_str());
    line.append(": ");
    line.append(e.message.as_str());
    line
}

/// The diagnostic for `message` at `token`.
pub fn error(token: &Token, message: &String) -> (e: Error)
    ensures
        e@ == diagnostic(token@, message@),
{
    if token.kind == TokenType::Eof {
        Error { line: token.line, message: message.clone(), place: String::from_str(" at the end") }
    } else {
        let mut place = String::from_str(" at '");
        place.append(token.lexeme.as_str());
        place.append("'");
        Error { line: token.line, message: message.clone(), place }
    }
}

/// The error that stops an evaluation: the token of the operator that could
/// not be applied, and why.
#[derive(Clone, Debug, PartialEq)]
pub struct RuntimeError {
    pub token: Token,
    pub message: String,
}

/// What a `RuntimeError` stands for.
pub struct RuntimeErrorView {
    pub token: TokenView,
    pub message: Seq<char>,
}

impl View for RuntimeError {
    type V = RuntimeErrorView;

    open spec fn view(&self) -> RuntimeErrorView {
        RuntimeErrorView { token: self.token@, message: self.message@ }
    }
}

impl DeepView for RuntimeError {
    type V = RuntimeErrorView;

    open spec fn deep_view(&self) -> RuntimeErrorView {
        self.view()
    }
}

/// The three lines that show a runtime error: the message, the lexeme of the
/// token, and its line.
pub open spec fn runtime_report(e: RuntimeErrorView) -> Seq<char> {
    e.message + " \n[token "@ + e.token.lexeme + "]\n[line "@ + decimal(e.token.line as nat)
        + "]"@
}

impl RuntimeError {
    /// The error at `token` with `message`.
    pub fn new(token: Token, message: String) -> (e: RuntimeError)
        ensures
            e.token == token,
            e.message == message,
    {
        RuntimeError { token, message }
    }

    /// Renders the error as the text that is shown for it.
    pub fn report(&self) -> (text: String)
        ensures
            text@ == runtime_report(self@),
    {
        let mut text = self.message.clone();
        text.append(" \n[token ");
        text.append(self.token.lexeme.as_str());
        text.append("]\n[line ");
        let number = decimal_text(self.token.line);
        text.append(number.as_str());
        text.append("]");
        text
    }
}

} // verus!
