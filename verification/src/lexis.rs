//! What scanning means: the lexical grammar as functions on a sequence of
//! characters.
//!
//! `scan` gives, for a source text, the tokens, the diagnostics and the final
//! line number. Its building block is `scan_token`, which says what the one
//! step that starts at a position recognises and where the next step starts.
//! The value of a number is not a matter of the grammar: the tokens of `scan`
//! are without it, and `valued` adds it.

use crate::errors::ErrorView;
use crate::number::Number;
use crate::tokens::{LiteralView, TokenType, TokenView};
use vstd::prelude::*;

verus! {

/// A decimal digit.
pub open spec fn is_digit(c: char) -> bool {
    '0' <= c <= '9'
}

/// A letter of the Latin alphabet, or the underscore.
pub open spec fn is_alpha(c: char) -> bool {
    ('a' <= c <= 'z') || ('A' <= c <= 'Z') || c == '_'
}

/// A character of an identifier: a letter, the underscore or a digit.
pub open spec fn is_alpha_numeric(c: char) -> bool {
    is_digit(c) || is_alpha(c)
}

/// Where the longest run of characters that satisfy `p`, starting at `pos`,
/// ends: the first position from `pos` on whose character does not satisfy
/// `p`, or the end of the text.
pub open spec fn run_end(src: Seq<char>, pos: int, p: spec_fn(char) -> bool) -> int
    decreases src.len() - pos,
{
    if 0 <= pos < src.len() && p(src[pos]) {
        run_end(src, pos + 1, p)
    } else {
        pos
    }
}

/// Where a block comment whose body starts at `pos` ends: just after the first
/// `*/` from `pos` on, or at the end of the text when there is none.
pub open spec fn comment_end(src: Seq<char>, pos: int) -> int
    decreases src.len() - pos,
{
    if 0 <= pos < src.len() {
        if src[pos] == '*' && pos + 1 < src.len() && src[pos + 1] == '/' {
            pos + 2
        } else {
            comment_end(src, pos + 1)
        }
    } else {
        pos
    }
}

/// The number of newlines in `src[from..to]`.
pub open spec fn newlines(src: Seq<char>, from: int, to: int) -> nat
    decreases to - from,
{
    if 0 <= from < to <= src.len() {
        newlines(src, from, to - 1) + if src[to - 1] == '\n' {
            1nat
        } else {
            0nat
        }
    } else {
        0
    }
}

/// The line counter after `count` more newlines. It stops at the largest
/// value it can hold.
pub open spec fn line_after(line: u64, count: nat) -> u64 {
    if line + count <= u64::MAX {
        (line + count) as u64
    } else {
        u64::MAX
    }
}

/// The reserved words, with their kinds.
pub open spec fn keyword_table() -> Seq<(Seq<char>, TokenType)> {
    seq![
        ("and"@, TokenType::And),
        ("class"@, TokenType::Class),
        ("else"@, TokenType::Else),
        ("false"@, TokenType::False),
        ("for"@, TokenType::For),
        ("fun"@, TokenType::Fun),
        ("if"@, TokenType::If),
        ("nil"@, TokenType::Nil),
        ("or"@, TokenType::Or),
        ("print"@, TokenType::Print),
        ("return"@, TokenType::Return),
        ("super"@, TokenType::Super),
        ("this"@, TokenType::This),
        ("true"@, TokenType::True),
        ("var"@, TokenType::Var),
        ("while"@, TokenType::While),
    ]
}

/// The kind that the first entry of `table[from..]` with the text `word` gives.
pub open spec fn lookup(table: Seq<(Seq<char>, TokenType)>, from: int, word: Seq<char>) -> Option<
    TokenType,
>
    decreases table.len() - from,
{
    if 0 <= from < table.len() {
        if table[from].0 == word {
            Some(table[from].1)
        } else {
            lookup(table, from + 1, word)
        }
    } else {
        None
    }
}

/// The kind of an identifier-shaped lexeme: that of the reserved word it
/// spells, else `Identifier`.
pub open spec fn word_kind(word: Seq<char>) -> TokenType {
    match lookup(keyword_table(), 0, word) {
        Some(kind) => kind,
        None => TokenType::Identifier,
    }
}

/// What one scanning step yields: where the next step starts, the line
/// counter after it, and the token or the diagnostic it produced, if any.
pub struct Step {
    pub next: int,
    pub line: u64,
    pub token: Option<TokenView>,
    pub error: Option<ErrorView>,
}

/// A step that produces nothing.
pub open spec fn skip_to(next: int, line: u64) -> Step {
    Step { next, line, token: None, error: None }
}

/// A step that produces the token of `kind` with the lexeme `src[pos..next]`.
pub open spec fn token_to(
    src: Seq<char>,
    pos: int,
    next: int,
    line: u64,
    kind: TokenType,
    literal: Option<LiteralView>,
) -> Step {
    Step {
        next,
        line,
        token: Some(TokenView { kind, lexeme: src.subrange(pos, next), literal, line }),
        error: None,
    }
}

/// A step that reports `message` on `line` and produces no token.
pub open spec fn error_to(next: int, line: u64, message: Seq<char>) -> Step {
    Step {
        next,
        line,
        token: None,
        error: Some(ErrorView { line, message, place: Seq::empty() }),
    }
}

/// Whether the character at `pos` is `c`.
pub open spec fn has_char(src: Seq<char>, pos: int, c: char) -> bool {
    0 <= pos < src.len() && src[pos] == c
}

/// One of `!`, `=`, `<`, `>` at `pos`: with `=` behind it the two-character
/// token, else the one-character token.
pub open spec fn operator_step(
    src: Seq<char>,
    pos: int,
    line: u64,
    with_equal: TokenType,
    alone: TokenType,
) -> Step {
    if has_char(src, pos + 1, '=') {
        token_to(src, pos, pos + 2, line, with_equal, None)
    } else {
        token_to(src, pos, pos + 1, line, alone, None)
    }
}

/// A `/` at `pos`: a line comment up to the end of the line, a block comment
/// up to and including the first `*/`, or the slash token.
pub open spec fn slash_step(src: Seq<char>, pos: int, line: u64) -> Step {
    if has_char(src, pos + 1, '/') {
        skip_to(run_end(src, pos + 2, |c: char| c != '\n'), line)
    } else if has_char(src, pos + 1, '*') {
        skip_to(comment_end(src, pos + 2), line)
    } else {
        token_to(src, pos, pos + 1, line, TokenType::Slash, None)
    }
}

/// A `"` at `pos`: the string up to the next `"`. Its value is the text
/// between the quotes, and newlines inside it count as lines. Without a
/// closing quote the rest of the text is consumed and reported.
pub open spec fn string_step(src: Seq<char>, pos: int, line: u64) -> Step {
    let close = run_end(src, pos + 1, |c: char| c != '"');
    let line_end = line_after(line, newlines(src, pos + 1, close));
    if close < src.len() {
        token_to(
            src,
            pos,
            close + 1,
            line_end,
            TokenType::String,
            Some(LiteralView::String(src.subrange(pos + 1, close))),
        )
    } else {
        error_to(close, line_end, "Unterminated string"@)
    }
}

/// Where the number that starts at `pos` ends: after the longest run of
/// digits and, if a dot with a digit behind it follows, after the dot and the
/// longest run of digits behind it.
pub open spec fn number_end(src: Seq<char>, pos: int) -> int {
    let whole = run_end(src, pos, |c: char| is_digit(c));
    if has_char(src, whole, '.') && whole + 1 < src.len() && is_digit(src[whole + 1]) {
        run_end(src, whole + 1, |c: char| is_digit(c))
    } else {
        whole
    }
}

/// Whether every character of `s` is a digit.
pub open spec fn all_digits(s: Seq<char>) -> bool {
    forall|i: int| 0 <= i < s.len() ==> is_digit(#[trigger] s[i])
}

/// The shape of a number lexeme: one digit or more, or that, a dot, and one
/// digit or more.
pub open spec fn is_number_lexeme(s: Seq<char>) -> bool {
    ||| s.len() > 0 && all_digits(s)
    ||| exists|dot: int|
        0 < dot < s.len() - 1 && #[trigger] s[dot] == '.' && all_digits(s.subrange(0, dot))
            && all_digits(s.subrange(dot + 1, s.len() as int))
}

/// A digit at `pos`: the number token. Its value is no matter of the text
/// alone, and comes with `valued`.
pub open spec fn number_step(src: Seq<char>, pos: int, line: u64) -> Step {
    token_to(src, pos, number_end(src, pos), line, TokenType::Number, None)
}

/// A letter or underscore at `pos`: the longest run of letters, digits and
/// underscores, as a reserved word if it spells one and as an identifier
/// otherwise.
pub open spec fn identifier_step(src: Seq<char>, pos: int, line: u64) -> Step {
    let end = run_end(src, pos, |c: char| is_alpha_numeric(c));
    token_to(src, pos, end, line, word_kind(src.subrange(pos, end)), None)
}

/// The step that starts at `pos`, on line `line`.
pub open spec fn scan_token(src: Seq<char>, pos: int, line: u64) -> Step
    recommends
        0 <= pos < src.len(),
{
    let c = src[pos];
    if c == '(' {
        token_to(src, pos, pos + 1, line, TokenType::LeftParen, None)
    } else if c == ')' {
        token_to(src, pos, pos + 1, line, TokenType::RightParen, None)
    } else if c == '{' {
        token_to(src, pos, pos + 1, line, TokenType::LeftBrace, None)
    } else if c == '}' {
        token_to(src, pos, pos + 1, line, TokenType::RightBrace, None)
    } else if c == ',' {
        token_to(src, pos, pos + 1, line, TokenType::Comma, None)
    } else if c == '.' {
        token_to(src, pos, pos + 1, line, TokenType::Dot, None)
    } else if c == '-' {
        token_to(src, pos, pos + 1, line, TokenType::Minus, None)
    } else if c == '+' {
        token_to(src, pos, pos + 1, line, TokenType::Plus, None)
    } else if c == ';' {
        token_to(src, pos, pos + 1, line, TokenType::Semicolon, None)
    } else if c == ':' {
        token_to(src, pos, pos + 1, line, TokenType::Colon, None)
    } else if c == '*' {
        token_to(src, pos, pos + 1, line, TokenType::Star, None)
    } else if c == '?' {
        token_to(src, pos, pos + 1, line, TokenType::Question, None)
    } else if c == '!' {
        operator_step(src, pos, line, TokenType::BangEqual, TokenType::Bang)
    } else if c == '=' {
        operator_step(src, pos, line, TokenType::EqualEqual, TokenType::Equal)
    } else if c == '>' {
        operator_step(src, pos, line, TokenType::GreaterEqual, TokenType::Greater)
    } else if c == '<' {
        operator_step(src, pos, line, TokenType::LessEqual, TokenType::Less)
    } else if c == '/' {
        slash_step(src, pos, line)
    } else if c == '"' {
        string_step(src, pos, line)
    } else if c == ' ' || c == '\r' || c == '\t' {
        skip_to(pos + 1, line)
    } else if c == '\n' {
        skip_to(pos + 1, line_after(line, 1))
    } else if is_digit(c) {
        number_step(src, pos, line)
    } else if is_alpha(c) {
        identifier_step(src, pos, line)
    } else {
        error_to(pos + 1, line, "Unexpected character: "@.push(c))
    }
}

/// The outcome of scanning: the tokens and the diagnostics, each in the order
/// found, and the line counter at the end.
pub struct Scan {
    pub tokens: Seq<TokenView>,
    pub errors: Seq<ErrorView>,
    pub line: u64,
}

/// The sequence of what is there: one item or none.
pub open spec fn items<T>(o: Option<T>) -> Seq<T> {
    match o {
        Some(t) => seq![t],
        None => Seq::empty(),
    }
}

/// Appending the sequence of one item is pushing the item.
pub proof fn lemma_items<T>(s: Seq<T>, x: T)
    ensures
        s + items(Some(x)) == s.push(x),
{
    assert(s + items(Some(x)) =~= s.push(x));
}

/// Appending the sequence of no item changes nothing.
pub proof fn lemma_no_items<T>(s: Seq<T>)
    ensures
        s + items::<T>(None) == s,
{
    assert(s + items::<T>(None) =~= s);
}

/// Scanning `src[pos..]`, starting on line `line`: step after step to the end
/// of the text.
pub open spec fn scan_from(src: Seq<char>, pos: int, line: u64) -> Scan
    decreases src.len() - pos,
{
    if 0 <= pos < src.len() {
        let step = scan_token(src, pos, line);
        proof {
            lemma_step_advances(src, pos, line);
        }
        let rest = scan_from(src, step.next, step.line);
        Scan {
            tokens: items(step.token) + rest.tokens,
            errors: items(step.error) + rest.errors,
            line: rest.line,
        }
    } else {
        Scan { tokens: Seq::empty(), errors: Seq::empty(), line }
    }
}

/// The end marker: no lexeme, no literal, on the last line.
pub open spec fn end_marker(line: u64) -> TokenView {
    TokenView { kind: TokenType::Eof, lexeme: Seq::empty(), literal: None, line }
}

/// Scanning a whole source text from line 1: the tokens of the text, then
/// one end marker. The number tokens are without their values.
pub open spec fn scan(src: Seq<char>) -> Scan {
    let body = scan_from(src, 0, 1);
    Scan { tokens: body.tokens.push(end_marker(body.line)), errors: body.errors, line: body.line }
}

/// A token with its value: a number token carries what `number` makes of its
/// lexeme, and any other token is as it was.
pub open spec fn valued(token: TokenView, number: spec_fn(Seq<char>) -> Number) -> TokenView {
    if token.kind == TokenType::Number {
        TokenView {
            kind: token.kind,
            lexeme: token.lexeme,
            literal: Some(LiteralView::Number(number(token.lexeme))),
            line: token.line,
        }
    } else {
        token
    }
}

/// The tokens with their values.
pub open spec fn all_valued(
    tokens: Seq<TokenView>,
    number: spec_fn(Seq<char>) -> Number,
) -> Seq<TokenView> {
    tokens.map_values(|token: TokenView| valued(token, number))
}

/// An identifier-shaped lexeme is an identifier or a reserved word: not a
/// number, a string or the end marker.
pub proof fn lemma_word_kind(word: Seq<char>)
    ensures
        word_kind(word) != TokenType::Number,
        word_kind(word) != TokenType::String,
        word_kind(word) != TokenType::Eof,
{
    reveal_with_fuel(lookup, 17);
}

/// A run ends between its start and the end of the text; every character in
/// it satisfies `p`, and the character behind it, if there is one, does not.
pub proof fn lemma_run_end(src: Seq<char>, pos: int, p: spec_fn(char) -> bool)
    requires
        0 <= pos <= src.len(),
    ensures
        pos <= run_end(src, pos, p) <= src.len(),
        forall|i: int| pos <= i < run_end(src, pos, p) ==> p(#[trigger] src[i]),
        run_end(src, pos, p) < src.len() ==> !p(src[run_end(src, pos, p)]),
    decreases src.len() - pos,
{
    if pos < src.len() && p(src[pos]) {
        lemma_run_end(src, pos + 1, p);
    }
}

/// A block comment ends between its start and the end of the text.
pub proof fn lemma_comment_end(src: Seq<char>, pos: int)
    requires
        0 <= pos <= src.len(),
    ensures
        pos <= comment_end(src, pos) <= src.len(),
    decreases src.len() - pos,
{
    if pos < src.len() && !(src[pos] == '*' && pos + 1 < src.len() && src[pos + 1] == '/') {
        lemma_comment_end(src, pos + 1);
    }
}

/// A number that starts with a digit is not empty, ends inside the text, and
/// has the shape of a number lexeme.
pub proof fn lemma_number_lexeme(src: Seq<char>, pos: int)
    requires
        0 <= pos < src.len(),
        is_digit(src[pos]),
    ensures
        pos < number_end(src, pos) <= src.len(),
        is_number_lexeme(src.subrange(pos, number_end(src, pos))),
{
    let p = |c: char| is_digit(c);
    let whole = run_end(src, pos, p);
    lemma_run_end(src, pos, p);
    assert(whole == run_end(src, pos + 1, p));
    lemma_run_end(src, pos + 1, p);
    let end = number_end(src, pos);
    let s = src.subrange(pos, end);
    if has_char(src, whole, '.') && whole + 1 < src.len() && is_digit(src[whole + 1]) {
        lemma_run_end(src, whole + 1, p);
        assert(end == run_end(src, whole + 2, p));
        lemma_run_end(src, whole + 2, p);
        let dot = whole - pos;
        assert(s[dot] == '.');
        assert(all_digits(s.subrange(0, dot))) by {
            assert forall|i: int| 0 <= i < dot implies is_digit(
                #[trigger] s.subrange(0, dot)[i],
            ) by {
                assert(p(src[pos + i]));
            }
        }
        assert(all_digits(s.subrange(dot + 1, s.len() as int))) by {
            assert forall|i: int| 0 <= i < s.len() - dot - 1 implies is_digit(
                #[trigger] s.subrange(dot + 1, s.len() as int)[i],
            ) by {
                assert(p(src[whole + 1 + i]));
            }
        }
    } else {
        assert(all_digits(s)) by {
            assert forall|i: int| 0 <= i < s.len() implies is_digit(#[trigger] s[i]) by {
                assert(p(src[pos + i]));
            }
        }
    }
}

/// Every step consumes at least one character and stays inside the text.
pub proof fn lemma_step_advances(src: Seq<char>, pos: int, line: u64)
    requires
        0 <= pos < src.len(),
    ensures
        pos < scan_token(src, pos, line).next <= src.len(),
{
    let c = src[pos];
    if c == '/' {
        if has_char(src, pos + 1, '/') {
            lemma_run_end(src, pos + 2, |c: char| c != '\n');
        } else if has_char(src, pos + 1, '*') {
            lemma_comment_end(src, pos + 2);
        }
    } else if c == '"' {
        lemma_run_end(src, pos + 1, |c: char| c != '"');
    } else if is_digit(c) {
        lemma_run_end(src, pos, |c: char| is_digit(c));
        let whole = run_end(src, pos, |c: char| is_digit(c));
        if whole < src.len() {
            lemma_run_end(src, whole + 1, |c: char| is_digit(c));
        }
    } else if is_alpha(c) {
        lemma_run_end(src, pos, |c: char| is_alpha_numeric(c));
    }
}

} // verus!
