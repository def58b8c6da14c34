//! The scanner: one pass over the source text, from left to right, that
//! collects the tokens and the lexical diagnostics.

use crate::errors::{Error, ErrorView};
use crate::lexis::{
    all_valued, comment_end, end_marker, error_to, has_char, identifier_step, is_alpha,
    is_alpha_numeric, is_digit, is_number_lexeme, items, keyword_table, lemma_items,
    lemma_no_items, lemma_number_lexeme, lemma_step_advances, lemma_word_kind, line_after, lookup,
    newlines, number_step, operator_step, run_end, scan_from, scan_token, slash_step, string_step,
    token_to, valued, word_kind, Scan, Step,
};
use crate::number::Number;
use crate::text::{chars_of, text_of};
use crate::tokens::{LiteralType, LiteralView, Token, TokenType, TokenView};
use vstd::prelude::*;

verus! {

/// `m` says what number the function `f` makes of each lexeme.
pub open spec fn models_number<F: Fn(&str) -> Number>(
    f: &F,
    m: spec_fn(Seq<char>) -> Number,
) -> bool {
    forall|s: &str, n: Number| call_ensures(*f, (s,), n) ==> n == m(s@)
}

/// `f` gave `n` for `lexeme`.
pub open spec fn gave<F: Fn(&str) -> Number>(f: &F, lexeme: Seq<char>, n: Number) -> bool {
    exists|s: &str| s@ == lexeme && call_ensures(*f, (s,), n)
}

/// `token` is `lexed` as the scanner hands it out: any token but a number as
/// it was lexed, and a number with a value that `f` gave for its lexeme.
pub open spec fn scanned_as<F: Fn(&str) -> Number>(
    f: &F,
    token: TokenView,
    lexed: TokenView,
) -> bool {
    if lexed.kind == TokenType::Number {
        &&& token.kind == lexed.kind
        &&& token.lexeme == lexed.lexeme
        &&& token.line == lexed.line
        &&& token.literal matches Some(LiteralView::Number(n))
        &&& gave(f, lexed.lexeme, n)
    } else {
        token == lexed
    }
}

/// Each of `tokens` is the one of `lexed` at its place, as the scanner hands
/// it out.
pub open spec fn all_scanned_as<F: Fn(&str) -> Number>(
    f: &F,
    tokens: Seq<TokenView>,
    lexed: Seq<TokenView>,
) -> bool {
    &&& tokens.len() == lexed.len()
    &&& forall|i: int| 0 <= i < tokens.len() ==> scanned_as(f, #[trigger] tokens[i], lexed[i])
}

/// Where `m` says what `f` makes of each lexeme, tokens handed out are the
/// lexed tokens with the values that `m` gives.
pub proof fn lemma_values<F: Fn(&str) -> Number>(
    f: &F,
    m: spec_fn(Seq<char>) -> Number,
    tokens: Seq<TokenView>,
    lexed: Seq<TokenView>,
)
    requires
        models_number(f, m),
        all_scanned_as(f, tokens, lexed),
    ensures
        tokens == all_valued(lexed, m),
{
    assert forall|i: int| 0 <= i < tokens.len() implies tokens[i] == valued(lexed[i], m) by {
        assert(scanned_as(f, tokens[i], lexed[i]));
    }
    assert(tokens =~= all_valued(lexed, m));
}

/// `f` can be called on every number lexeme.
pub open spec fn reads_numbers<F: Fn(&str) -> Number>(f: &F) -> bool {
    forall|s: &str| is_number_lexeme(s@) ==> call_requires(*f, (s,))
}

/// What a keyword table stands for.
spec fn table_view(table: Seq<(String, TokenType)>) -> Seq<(Seq<char>, TokenType)> {
    table.map_values(|e: (String, TokenType)| (e.0@, e.1))
}

/// The state of a scan: the text, what was found so far, and the cursor.
pub struct Scanner {
    source: Vec<char>,
    tokens: Vec<Token>,
    errors: Vec<Error>,
    start: usize,
    current: usize,
    line: u64,
    keywords: Vec<(String, TokenType)>,
}

/// Copies of the tokens, in order.
fn duplicate_all(tokens: &Vec<Token>) -> (copy: Vec<Token>)
    ensures
        copy.deep_view() == tokens.deep_view(),
{
    let mut copy: Vec<Token> = Vec::new();
    let mut i: usize = 0;
    while i < tokens.len()
        invariant
            i <= tokens@.len(),
            copy@.len() == i,
            forall|k: int| 0 <= k < i ==> copy@[k]@ == tokens@[k]@,
        decreases tokens@.len() - i,
    {
        copy.push(tokens[i].duplicate());
        i += 1;
    }
    assert(copy.deep_view() =~= tokens.deep_view());
    copy
}

/// The keyword table.
fn keywords() -> (table: Vec<(String, TokenType)>)
    ensures
        table_view(table@) == keyword_table(),
{
    let mut table: Vec<(String, TokenType)> = Vec::new();
    table.push((String::from_str("and"), TokenType::And));
    table.push((String::from_str("class"), TokenType::Class));
    table.push((String::from_str("else"), TokenType::Else));
    table.push((String::from_str("false"), TokenType::False));
    table.push((String::from_str("for"), TokenType::For));
    table.push((String::from_str("fun"), TokenType::Fun));
    table.push((String::from_str("if"), TokenType::If));
    table.push((String::from_str("nil"), TokenType::Nil));
    table.push((String::from_str("or"), TokenType::Or));
    table.push((String::from_str("print"), TokenType::Print));
    table.push((String::from_str("return"), TokenType::Return));
    table.push((String::from_str("super"), TokenType::Super));
    table.push((String::from_str("this"), TokenType::This));
    table.push((String::from_str("true"), TokenType::True));
    table.push((String::from_str("var"), TokenType::Var));
    table.push((String::from_str("while"), TokenType::While));
    assert(table_view(table@) =~= keyword_table());
    table
}

impl Scanner {
    /// The cursor is inside the text and the keyword table is the fixed one.
    pub closed spec fn well_formed(self) -> bool {
        &&& self.start <= self.current <= self.source@.len()
        &&& table_view(self.keywords@) == keyword_table()
    }

    /// The text that is scanned.
    pub closed spec fn source(self) -> Seq<char> {
        self.source@
    }

    /// The tokens found so far.
    pub closed spec fn tokens(self) -> Seq<TokenView> {
        self.tokens.deep_view()
    }

    /// The diagnostics found so far.
    pub closed spec fn errors(self) -> Seq<ErrorView> {
        self.errors.deep_view()
    }

    /// Where the next step starts.
    pub closed spec fn position(self) -> int {
        self.current as int
    }

    /// The line on which the next step starts.
    pub closed spec fn line(self) -> u64 {
        self.line
    }

    /// What the rest of the text scans to: the tokens, without the values of
    /// the numbers, the diagnostics, and the last line.
    pub open spec fn rest(self) -> Scan {
        scan_from(self.source(), self.position(), self.line())
    }

    /// `self` is `before` after the rest of the text was scanned with
    /// `number`. The tokens of the rest and one end marker are appended: each
    /// token as the text determines it, and each number with a value that
    /// `number` gave for its lexeme. The diagnostics of the rest are appended,
    /// and the line is the last.
    pub open spec fn scanned<F: Fn(&str) -> Number>(self, before: Scanner, number: &F) -> bool {
        let found = before.rest();
        let kept = before.tokens().len() as int;
        &&& self.tokens().len() == kept + found.tokens.len() + 1
        &&& self.tokens().subrange(0, kept) == before.tokens()
        &&& all_scanned_as(
            number,
            self.tokens().subrange(kept, kept + found.tokens.len()),
            found.tokens,
        )
        &&& self.tokens().last() == end_marker(found.line)
        &&& self.errors() == before.errors() + found.errors
        &&& self.line() == found.line
    }

    /// A scanner at the start of `source`, on line 1, with nothing found yet.
    pub fn new(source: String) -> (scanner: Scanner)
        ensures
            scanner.well_formed(),
            scanner.source() == source@,
            scanner.tokens() == Seq::<TokenView>::empty(),
            scanner.errors() == Seq::<ErrorView>::empty(),
            scanner.position() == 0,
            scanner.line() == 1,
    {
        let scanner = Scanner {
            source: chars_of(source.as_str()),
            tokens: Vec::new(),
            errors: Vec::new(),
            start: 0,
            current: 0,
            line: 1,
            keywords: keywords(),
        };
        assert(scanner.tokens.deep_view() =~= Seq::<TokenView>::empty());
        assert(scanner.errors.deep_view() =~= Seq::<ErrorView>::empty());
        scanner
    }

    /// The diagnostics found so far, in the order found.
    pub fn diagnostics(&self) -> (errors: &Vec<Error>)
        ensures
            errors.deep_view() == self.errors(),
    {
        &self.errors
    }

    /// Whether the cursor is behind the last character.
    fn is_at_end(&self) -> (b: bool)
        requires
            self.well_formed(),
        ensures
            b == (self.current >= self.source@.len()),
    {
        self.current >= self.source.len()
    }

    /// Takes the character at the cursor.
    fn advance(&mut self) -> (c: char)
        requires
            old(self).well_formed(),
            old(self).current < old(self).source@.len(),
        ensures
            final(self).well_formed(),
            c == old(self).source@[old(self).current as int],
            final(self).current == old(self).current + 1,
            final(self).source == old(self).source,
            final(self).tokens == old(self).tokens,
            final(self).errors == old(self).errors,
            final(self).start == old(self).start,
            final(self).line == old(self).line,
    {
        let c = self.source[self.current];
        assert(self.source@.len() == self.source.len());
        self.current += 1;
        c
    }

    /// The character at the cursor.
    fn peek(&self) -> (c: char)
        requires
            self.well_formed(),
            self.current < self.source@.len(),
        ensures
            c == self.source@[self.current as int],
    {
        self.source[self.current]
    }

    /// The character behind the one at the cursor, or `\0` where there is none.
    fn peek_next(&self) -> (c: char)
        requires
            self.well_formed(),
        ensures
            c == if self.current + 1 < self.source@.len() {
                self.source@[self.current + 1]
            } else {
                '\0'
            },
    {
        if self.current < self.source.len() && self.current + 1 < self.source.len() {
            self.source[self.current + 1]
        } else {
            '\0'
        }
    }

    /// Takes the character at the cursor if it is `expected`.
    fn next_matches(&mut self, expected: char) -> (b: bool)
        requires
            old(self).well_formed(),
        ensures
            final(self).well_formed(),
            b == has_char(old(self).source@, old(self).current as int, expected),
            final(self).current == if b {
                old(self).current + 1
            } else {
                old(self).current as int
            },
            final(self).source == old(self).source,
            final(self).tokens == old(self).tokens,
            final(self).errors == old(self).errors,
            final(self).start == old(self).start,
            final(self).line == old(self).line,
    {
        if self.is_at_end() {
            return false;
        }
        if self.source[self.current] != expected {
            return false;
        }
        assert(self.source@.len() == self.source.len());
        self.current += 1;
        true
    }

    /// Appends the token of kind `t` whose lexeme runs from the start of the
    /// step to the cursor.
    fn add_token(&mut self, t: TokenType, l: Option<LiteralType>)
        requires
            old(self).well_formed(),
        ensures
            final(self).well_formed(),
            final(self).tokens.deep_view() == old(self).tokens.deep_view().push(
                TokenView {
                    kind: t,
                    lexeme: old(self).source@.subrange(
                        old(self).start as int,
                        old(self).current as int,
                    ),
                    literal: l.deep_view(),
                    line: old(self).line,
                },
            ),
            final(self).current == old(self).current,
            final(self).source == old(self).source,
            final(self).errors == old(self).errors,
            final(self).start == old(self).start,
            final(self).line == old(self).line,
    {
        let token = Token {
            kind: t,
            lexeme: text_of(&self.source, self.start, self.current),
            literal: l,
            line: self.line,
        };
        self.tokens.push(token);
        assert(self.tokens.deep_view() =~= old(self).tokens.deep_view().push(token@));
    }

    /// Appends a diagnostic on the current line.
    fn add_error(&mut self, message: String)
        requires
            old(self).well_formed(),
        ensures
            final(self).well_formed(),
            final(self).errors.deep_view() == old(self).errors.deep_view().push(
                ErrorView { line: old(self).line, message: message@, place: Seq::empty() },
            ),
            final(self).current == old(self).current,
            final(self).source == old(self).source,
            final(self).tokens == old(self).tokens,
            final(self).start == old(self).start,
            final(self).line == old(self).line,
    {
        let e = Error { line: self.line, message, place: String::new() };
        self.errors.push(e);
        assert(self.errors.deep_view() =~= old(self).errors.deep_view().push(e@));
    }

    /// `self` is `before` after the step `step`.
    spec fn follows(self, before: Scanner, step: Step) -> bool {
        &&& self.well_formed()
        &&& self.source == before.source
        &&& self.current == step.next
        &&& self.line == step.line
        &&& self.tokens.deep_view() == before.tokens.deep_view() + items(step.token)
        &&& self.errors.deep_view() == before.errors.deep_view() + items(step.error)
    }

    /// Counts one more line.
    /// `self` is `before` after the step `step`, with the token, if there is
    /// one, as the scanner hands it out.
    spec fn steps<F: Fn(&str) -> Number>(self, before: Scanner, step: Step, number: &F) -> bool {
        &&& self.well_formed()
        &&& self.source == before.source
        &&& self.current == step.next
        &&& self.line == step.line
        &&& self.errors.deep_view() == before.errors.deep_view() + items(step.error)
        &&& match step.token {
            Some(lexed) => {
                &&& self.tokens.deep_view().len() == before.tokens.deep_view().len() + 1
                &&& self.tokens.deep_view().drop_last() == before.tokens.deep_view()
                &&& scanned_as(number, self.tokens.deep_view().last(), lexed)
            },
            None => self.tokens.deep_view() == before.tokens.deep_view(),
        }
    }

    /// A step that lexes no number is handed out as it is.
    proof fn lemma_follows<F: Fn(&str) -> Number>(self, before: Scanner, step: Step, number: &F)
        requires
            self.follows(before, step),
            step.token matches Some(lexed) ==> lexed.kind != TokenType::Number,
        ensures
            self.steps(before, step, number),
    {
        match step.token {
            Some(lexed) => {
                assert(self.tokens.deep_view().drop_last() =~= before.tokens.deep_view());
            },
            None => {
                lemma_no_items(before.tokens.deep_view());
            },
        }
    }

    fn next_line(&mut self)
        requires
            old(self).well_formed(),
        ensures
            final(self).well_formed(),
            final(self).line == line_after(old(self).line, 1),
            final(self).current == old(self).current,
            final(self).source == old(self).source,
            final(self).tokens == old(self).tokens,
            final(self).errors == old(self).errors,
            final(self).start == old(self).start,
    {
        if self.line < u64::MAX {
            self.line += 1;
        }
    }

    /// The rest of a string, behind its opening quote.
    fn string(&mut self)
        requires
            old(self).well_formed(),
            old(self).current == old(self).start + 1,
        ensures
            final(self).follows(
                *old(self),
                string_step(old(self).source@, old(self).start as int, old(self).line),
            ),
    {
        let ghost src = self.source@;
        let ghost open = self.current as int;
        let ghost line = self.line;
        while !self.is_at_end() && self.peek() != '"'
            invariant
                self.well_formed(),
                self.source@ == src,
                self.source == old(self).source,
                self.tokens == old(self).tokens,
                self.errors == old(self).errors,
                self.start == old(self).start,
                open == self.start + 1,
                open <= self.current <= src.len(),
                run_end(src, open, |c: char| c != '"') == run_end(
                    src,
                    self.current as int,
                    |c: char| c != '"',
                ),
                self.line == line_after(line, newlines(src, open, self.current as int)),
            decreases src.len() - self.current,
        {
            if self.peek() == '\n' {
                self.next_line();
            }
            self.advance();
        }
        if self.is_at_end() {
            self.add_error(String::from_str("Unterminated string"));
            proof {
                lemma_items(old(self).errors.deep_view(), self.errors.deep_view().last());
                lemma_no_items(old(self).tokens.deep_view());
            }
            return ;
        }
        self.advance();
        let value = text_of(&self.source, self.start + 1, self.current - 1);
        self.add_token(TokenType::String, Some(LiteralType::String(value)));
        proof {
            lemma_items(old(self).tokens.deep_view(), self.tokens.deep_view().last());
            lemma_no_items(old(self).errors.deep_view());
        }
    }

    /// Takes the digits at the cursor.
    fn digits(&mut self)
        requires
            old(self).well_formed(),
        ensures
            final(self).well_formed(),
            final(self).current == run_end(
                old(self).source@,
                old(self).current as int,
                |c: char| is_digit(c),
            ),
            final(self).source == old(self).source,
            final(self).tokens == old(self).tokens,
            final(self).errors == old(self).errors,
            final(self).start == old(self).start,
            final(self).line == old(self).line,
    {
        let ghost src = self.source@;
        while !self.is_at_end() && Scanner::is_digit(self.peek())
            invariant
                self.well_formed(),
                self.source@ == src,
                self.source == old(self).source,
                self.tokens == old(self).tokens,
                self.errors == old(self).errors,
                self.start == old(self).start,
                self.line == old(self).line,
                old(self).current <= self.current <= src.len(),
                run_end(src, old(self).current as int, |c: char| is_digit(c)) == run_end(
                    src,
                    self.current as int,
                    |c: char| is_digit(c),
                ),
            decreases src.len() - self.current,
        {
            self.advance();
        }
    }

    fn is_digit(c: char) -> (b: bool)
        ensures
            b == is_digit(c),
    {
        '0' <= c && c <= '9'
    }

    fn is_alpha(c: char) -> (b: bool)
        ensures
            b == is_alpha(c),
    {
        ('a' <= c && c <= 'z') || ('A' <= c && c <= 'Z') || c == '_'
    }

    fn is_alpha_numeric(c: char) -> (b: bool)
        ensures
            b == is_alpha_numeric(c),
    {
        Scanner::is_digit(c) || Scanner::is_alpha(c)
    }

    /// The rest of a number, behind its first digit.
    fn number<F: Fn(&str) -> Number>(&mut self, number: &F)
        requires
            old(self).well_formed(),
            old(self).current == old(self).start + 1,
            is_digit(old(self).source@[old(self).start as int]),
            reads_numbers(number),
        ensures
            final(self).steps(
                *old(self),
                number_step(old(self).source@, old(self).start as int, old(self).line),
                number,
            ),
    {
        proof {
            lemma_number_lexeme(self.source@, self.start as int);
        }
        self.digits();
        if !self.is_at_end() && self.peek() == '.' && Scanner::is_digit(self.peek_next()) {
            self.advance();
            self.digits();
        }
        let literal = text_of(&self.source, self.start, self.current);
        let value = number(literal.as_str());
        self.add_token(TokenType::Number, Some(LiteralType::Number(value)));
        proof {
            assert(self.tokens.deep_view().drop_last() =~= old(self).tokens.deep_view());
            lemma_no_items(old(self).errors.deep_view());
        }
    }

    /// Looks `word` up in the keyword table.
    fn word_kind(&self, word: &String) -> (kind: TokenType)
        requires
            self.well_formed(),
        ensures
            kind == word_kind(word@),
    {
        let ghost table = keyword_table();
        let mut i: usize = 0;
        while i < self.keywords.len()
            invariant
                table_view(self.keywords@) == table,
                table == keyword_table(),
                i <= self.keywords@.len(),
                lookup(table, 0, word@) == lookup(table, i as int, word@),
            decreases self.keywords@.len() - i,
        {
            assert(table[i as int] == (self.keywords@[i as int].0@, self.keywords@[i as int].1));
            if self.keywords[i].0 == *word {
                return self.keywords[i].1;
            }
            i += 1;
        }
        TokenType::Identifier
    }

    /// The rest of an identifier or reserved word, behind its first character.
    fn identifier(&mut self)
        requires
            old(self).well_formed(),
            old(self).current == old(self).start + 1,
            is_alpha(old(self).source@[old(self).start as int]),
        ensures
            final(self).follows(
                *old(self),
                identifier_step(old(self).source@, old(self).start as int, old(self).line),
            ),
    {
        let ghost src = self.source@;
        while !self.is_at_end() && Scanner::is_alpha_numeric(self.peek())
            invariant
                self.well_formed(),
                self.source@ == src,
                self.source == old(self).source,
                self.tokens == old(self).tokens,
                self.errors == old(self).errors,
                self.start == old(self).start,
                self.line == old(self).line,
                old(self).current <= self.current <= src.len(),
                run_end(src, old(self).start as int, |c: char| is_alpha_numeric(c)) == run_end(
                    src,
                    self.current as int,
                    |c: char| is_alpha_numeric(c),
                ),
            decreases src.len() - self.current,
        {
            self.advance();
        }
        let text = text_of(&self.source, self.start, self.current);
        let kind = self.word_kind(&text);
        self.add_token(kind, None);
        proof {
            lemma_items(old(self).tokens.deep_view(), self.tokens.deep_view().last());
            lemma_no_items(old(self).errors.deep_view());
        }
    }

    /// Appends a token without a value.
    fn emit(&mut self, kind: TokenType)
        requires
            old(self).well_formed(),
        ensures
            final(self).follows(
                *old(self),
                token_to(
                    old(self).source@,
                    old(self).start as int,
                    old(self).current as int,
                    old(self).line,
                    kind,
                    None,
                ),
            ),
    {
        self.add_token(kind, None);
        proof {
            lemma_items(old(self).tokens.deep_view(), self.tokens.deep_view().last());
            lemma_no_items(old(self).errors.deep_view());
        }
    }

    /// One of `!`, `=`, `<`, `>`, with or without `=` behind it.
    fn operator(&mut self, with_equal: TokenType, alone: TokenType)
        requires
            old(self).well_formed(),
            old(self).current == old(self).start + 1,
        ensures
            final(self).follows(
                *old(self),
                operator_step(
                    old(self).source@,
                    old(self).start as int,
                    old(self).line,
                    with_equal,
                    alone,
                ),
            ),
    {
        if self.next_matches('=') {
            self.emit(with_equal);
        } else {
            self.emit(alone);
        }
    }

    /// What follows a `/`: a comment, or nothing that belongs to it.
    fn slash(&mut self)
        requires
            old(self).well_formed(),
            old(self).current == old(self).start + 1,
        ensures
            final(self).follows(
                *old(self),
                slash_step(old(self).source@, old(self).start as int, old(self).line),
            ),
    {
        let ghost src = self.source@;
        let ghost body = self.current + 1;
        if self.next_matches('/') {
            while !self.is_at_end() && self.peek() != '\n'
                invariant
                    self.well_formed(),
                    self.source@ == src,
                    self.source == old(self).source,
                    self.tokens == old(self).tokens,
                    self.errors == old(self).errors,
                    self.line == old(self).line,
                    body <= self.current <= src.len(),
                    run_end(src, body, |c: char| c != '\n') == run_end(
                        src,
                        self.current as int,
                        |c: char| c != '\n',
                    ),
                decreases src.len() - self.current,
            {
                self.advance();
            }
            proof {
                lemma_no_items(old(self).tokens.deep_view());
                lemma_no_items(old(self).errors.deep_view());
            }
        } else if self.next_matches('*') {
            while !(self.is_at_end() || (self.peek() == '*' && self.peek_next() == '/'))
                invariant
                    self.well_formed(),
                    self.source@ == src,
                    self.source == old(self).source,
                    self.tokens == old(self).tokens,
                    self.errors == old(self).errors,
                    self.line == old(self).line,
                    body <= self.current <= src.len(),
                    comment_end(src, body) == comment_end(src, self.current as int),
                decreases src.len() - self.current,
            {
                self.advance();
            }
            if !self.is_at_end() {
                self.advance();
                self.advance();
            }
            proof {
                lemma_no_items(old(self).tokens.deep_view());
                lemma_no_items(old(self).errors.deep_view());
            }
        } else {
            self.emit(TokenType::Slash);
        }
    }

    /// Reports a character with which no token starts.
    fn unexpected(&mut self, c: char)
        requires
            old(self).well_formed(),
        ensures
            final(self).follows(
                *old(self),
                error_to(
                    old(self).current as int,
                    old(self).line,
                    "Unexpected character: "@.push(c),
                ),
            ),
    {
        let mut message = String::from_str("Unexpected character: ");
        message.push(c);
        self.add_error(message);
        proof {
            lemma_items(old(self).errors.deep_view(), self.errors.deep_view().last());
            lemma_no_items(old(self).tokens.deep_view());
        }
    }

    /// One step: the token, comment, blank or error at the cursor.
    fn scan_token<F: Fn(&str) -> Number>(&mut self, number: &F)
        requires
            old(self).well_formed(),
            old(self).current < old(self).source@.len(),
            old(self).start == old(self).current,
            reads_numbers(number),
        ensures
            final(self).steps(
                *old(self),
                scan_token(old(self).source@, old(self).current as int, old(self).line),
                number,
            ),
    {
        let ghost step = scan_token(self.source@, self.current as int, self.line);
        let c = self.advance();
        if c == '(' {
            self.emit(TokenType::LeftParen);
        } else if c == ')' {
            self.emit(TokenType::RightParen);
        } else if c == '{' {
            self.emit(TokenType::LeftBrace);
        } else if c == '}' {
            self.emit(TokenType::RightBrace);
        } else if c == ',' {
            self.emit(TokenType::Comma);
        } else if c == '.' {
            self.emit(TokenType::Dot);
        } else if c == '-' {
            self.emit(TokenType::Minus);
        } else if c == '+' {
            self.emit(TokenType::Plus);
        } else if c == ';' {
            self.emit(TokenType::Semicolon);
        } else if c == ':' {
            self.emit(TokenType::Colon);
        } else if c == '*' {
            self.emit(TokenType::Star);
        } else if c == '?' {
            self.emit(TokenType::Question);
        } else if c == '!' {
            self.operator(TokenType::BangEqual, TokenType::Bang);
        } else if c == '=' {
            self.operator(TokenType::EqualEqual, TokenType::Equal);
        } else if c == '>' {
            self.operator(TokenType::GreaterEqual, TokenType::Greater);
        } else if c == '<' {
            self.operator(TokenType::LessEqual, TokenType::Less);
        } else if c == '/' {
            self.slash();
        } else if c == '"' {
            self.string();
        } else if c == ' ' || c == '\r' || c == '\t' {
            proof {
                lemma_no_items(old(self).tokens.deep_view());
                lemma_no_items(old(self).errors.deep_view());
            }
        } else if c == '\n' {
            self.next_line();
            proof {
                lemma_no_items(old(self).tokens.deep_view());
                lemma_no_items(old(self).errors.deep_view());
            }
        } else if Scanner::is_digit(c) {
            self.number(number);
        } else if Scanner::is_alpha(c) {
            self.identifier();
        } else {
            self.unexpected(c);
        }
        proof {
            if !is_digit(c) {
                if is_alpha(c) {
                    lemma_word_kind(step.token->0.lexeme);
                }
                self.lemma_follows(*old(self), step, number);
            }
        }
    }

    /// Scans the rest of the text, appends one end marker, and returns copies
    /// of all tokens found so far. `number` gives the value of a number
    /// lexeme.
    ///
    /// The tokens appended are those that the text determines, each number
    /// with a value that `number` gave for its lexeme; where `number` is
    /// known to compute a function, that is the function's value.
    pub fn scan_tokens<F: Fn(&str) -> Number>(&mut self, number: &F) -> (tokens: Vec<Token>)
        requires
            old(self).well_formed(),
            reads_numbers(number),
        ensures
            final(self).well_formed(),
            final(self).source() == old(self).source(),
            final(self).position() == old(self).source().len(),
            tokens.deep_view() == final(self).tokens(),
            final(self).scanned(*old(self), number),
            forall|m: spec_fn(Seq<char>) -> Number| #[trigger]
                models_number(number, m) ==> final(self).tokens() == (old(self).tokens()
                    + all_valued(old(self).rest().tokens, m)).push(
                    end_marker(old(self).rest().line),
                ),
    {
        let ghost src = self.source@;
        let ghost found = scan_from(src, self.current as int, self.line);
        let ghost before = self.tokens.deep_view();
        let ghost mut lexed: Seq<TokenView> = Seq::empty();
        assert(self.tokens.deep_view().subrange(before.len() as int, before.len() as int)
            =~= lexed);
        assert(lexed + found.tokens =~= found.tokens);
        proof {
            lemma_no_items(self.errors.deep_view());
        }
        while !self.is_at_end()
            invariant
                self.well_formed(),
                self.source@ == src,
                self.source == old(self).source,
                reads_numbers(number),
                found == scan_from(src, old(self).current as int, old(self).line),
                before == old(self).tokens.deep_view(),
                self.tokens.deep_view().len() == before.len() + lexed.len(),
                self.tokens.deep_view().subrange(0, before.len() as int) == before,
                all_scanned_as(
                    number,
                    self.tokens.deep_view().subrange(
                        before.len() as int,
                        self.tokens.deep_view().len() as int,
                    ),
                    lexed,
                ),
                found.tokens == lexed + scan_from(src, self.current as int, self.line).tokens,
                old(self).errors.deep_view() + found.errors == self.errors.deep_view() + scan_from(
                    src,
                    self.current as int,
                    self.line,
                ).errors,
                found.line == scan_from(src, self.current as int, self.line).line,
            decreases src.len() - self.current,
        {
            let ghost earlier = *self;
            let ghost step = scan_token(src, self.current as int, self.line);
            proof {
                lemma_step_advances(src, self.current as int, self.line);
            }
            self.start = self.current;
            self.scan_token(number);
            proof {
                let rest = scan_from(src, self.current as int, self.line);
                let sofar = earlier.tokens.deep_view();
                let now = self.tokens.deep_view();
                let n = before.len() as int;
                assert(earlier.errors.deep_view() + (items(step.error) + rest.errors)
                    =~= self.errors.deep_view() + rest.errors);
                match step.token {
                    Some(token) => {
                        assert(sofar == now.drop_last());
                        assert(now.subrange(0, n) =~= sofar.subrange(0, n));
                        let fresh = now.subrange(n, now.len() as int);
                        assert forall|i: int| 0 <= i < fresh.len() implies scanned_as(
                            number,
                            #[trigger] fresh[i],
                            lexed.push(token)[i],
                        ) by {
                            if i < lexed.len() {
                                assert(fresh[i] == sofar.subrange(n, sofar.len() as int)[i]);
                            }
                        }
                        assert(lexed.push(token) + rest.tokens =~= lexed + (items(step.token)
                            + rest.tokens));
                        lexed = lexed.push(token);
                    },
                    None => {
                        assert(lexed + rest.tokens =~= lexed + (items(step.token) + rest.tokens));
                    },
                }
            }
        }
        let eof = Token {
            kind: TokenType::Eof,
            lexeme: String::new(),
            literal: None,
            line: self.line,
        };
        let ghost scanned = self.tokens.deep_view();
        self.tokens.push(eof);
        proof {
            let now = self.tokens.deep_view();
            let n = before.len() as int;
            assert(now =~= scanned.push(end_marker(self.line)));
            assert(lexed =~= found.tokens);
            assert(old(self).errors.deep_view() + found.errors =~= self.errors.deep_view());
            assert(now.subrange(0, n) =~= before);
            assert(now.subrange(n, n + found.tokens.len()) =~= scanned.subrange(
                n,
                scanned.len() as int,
            ));
            assert forall|m: spec_fn(Seq<char>) -> Number| #[trigger]
                models_number(number, m) implies now == (before + all_valued(found.tokens, m)).push(
                end_marker(found.line),
            ) by {
                lemma_values(number, m, scanned.subrange(n, scanned.len() as int), found.tokens);
                assert(scanned =~= before + scanned.subrange(n, scanned.len() as int));
            }
        }
        duplicate_all(&self.tokens)
    }
}

} // verus!
