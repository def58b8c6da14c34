//! Laws of scanning, parsing, printing and evaluation: what follows from the
//! definitions for every input, stated and proved.

use crate::errors::{ErrorView, RuntimeErrorView};
use crate::grammar::{
    chain, chain_rest, expression, is_operator, kind_at, operand, primary, ternary, unary, Level,
};
use crate::lexis::{
    all_digits, all_valued, end_marker, has_char, is_digit, is_number_lexeme, lemma_run_end,
    lemma_step_advances, number_end, run_end, scan, scan_from, scan_token,
};
use crate::number::Number;
use crate::printing::printed;
use crate::evaluation::{evaluated, failure, same_variant, ValueView};
use crate::syntax_tree::ExprView;
use crate::tokens::{LiteralView, TokenType, TokenView};
use vstd::prelude::*;

verus! {

/// A run that is known to end at `end` ends there: every character from `pos`
/// to `end` satisfies `p`, and `end` is the end of the text or holds a
/// character that does not.
pub proof fn lemma_run_end_at(src: Seq<char>, pos: int, end: int, p: spec_fn(char) -> bool)
    requires
        0 <= pos <= end <= src.len(),
        forall|i: int| pos <= i < end ==> p(#[trigger] src[i]),
        end < src.len() ==> !p(src[end]),
    ensures
        run_end(src, pos, p) == end,
    decreases end - pos,
{
    if pos < end {
        lemma_run_end_at(src, pos + 1, end, p);
    }
}

/// Maximal munch: where `=` follows one of `!`, `=`, `<`, `>`, the step gives
/// one token of two characters, and never the one-character token.
pub proof fn lemma_two_characters_make_one_token(src: Seq<char>, pos: int, line: u64)
    requires
        0 <= pos,
        has_char(src, pos, '!') || has_char(src, pos, '=') || has_char(src, pos, '<') || has_char(
            src,
            pos,
            '>',
        ),
        has_char(src, pos + 1, '='),
    ensures
        ({
            let step = scan_token(src, pos, line);
            &&& step.next == pos + 2
            &&& step.error is None
            &&& step.token matches Some(token)
            &&& token.lexeme == src.subrange(pos, pos + 2)
            &&& token.kind == if src[pos] == '!' {
                TokenType::BangEqual
            } else if src[pos] == '=' {
                TokenType::EqualEqual
            } else if src[pos] == '<' {
                TokenType::LessEqual
            } else {
                TokenType::GreaterEqual
            }
        }),
{
}

/// A line comment yields nothing: the step that starts at `//` produces no
/// token and no diagnostic, keeps the line, and ends at the next newline or,
/// where there is none, at the end of the text.
pub proof fn lemma_line_comment(src: Seq<char>, pos: int, line: u64)
    requires
        0 <= pos,
        has_char(src, pos, '/'),
        has_char(src, pos + 1, '/'),
    ensures
        ({
            let step = scan_token(src, pos, line);
            &&& step.token is None
            &&& step.error is None
            &&& step.line == line
            &&& pos + 2 <= step.next <= src.len()
            &&& forall|i: int| pos + 2 <= i < step.next ==> src[i] != '\n'
            &&& step.next < src.len() ==> src[step.next] == '\n'
        }),
{
    lemma_run_end(src, pos + 2, |c: char| c != '\n');
}

/// A text that is one line comment, without a newline, scans to the end
/// marker alone.
pub proof fn lemma_comment_alone(body: Seq<char>)
    requires
        forall|i: int| 0 <= i < body.len() ==> body[i] != '\n',
    ensures
        scan(seq!['/', '/'] + body).tokens == seq![end_marker(1)],
        scan(seq!['/', '/'] + body).errors == Seq::<ErrorView>::empty(),
{
    let src = seq!['/', '/'] + body;
    assert(src[0] == '/' && src[1] == '/');
    lemma_line_comment(src, 0, 1);
    let step = scan_token(src, 0, 1);
    if step.next < src.len() {
        assert(src[step.next] == body[step.next - 2]);
    }
    reveal_with_fuel(scan_from, 2);
    assert(scan(src).tokens =~= seq![end_marker(1)]);
    assert(scan(src).errors =~= Seq::<ErrorView>::empty());
}

/// A string without its closing quote: scanning reports exactly one
/// diagnostic, produces no token for it, and still ends with the end marker.
pub proof fn lemma_unterminated_string(body: Seq<char>)
    requires
        forall|i: int| 0 <= i < body.len() ==> body[i] != '"',
    ensures
        ({
            let found = scan(seq!['"'] + body);
            &&& found.tokens == seq![end_marker(found.line)]
            &&& found.errors == seq![
                ErrorView {
                    line: found.line,
                    message: "Unterminated string"@,
                    place: Seq::empty(),
                },
            ]
        }),
{
    let src = seq!['"'] + body;
    assert(src[0] == '"');
    assert forall|i: int| 1 <= i < src.len() implies (|c: char| c != '"')(#[trigger] src[i]) by {
        assert(src[i] == body[i - 1]);
    }
    lemma_run_end_at(src, 1, src.len() as int, |c: char| c != '"');
    reveal_with_fuel(scan_from, 2);
    let found = scan(src);
    assert(found.tokens =~= seq![end_marker(found.line)]);
    assert(found.errors =~= seq![
        ErrorView { line: found.line, message: "Unterminated string"@, place: Seq::empty() },
    ]);
}

/// A number extends over the whole of a number lexeme.
pub proof fn lemma_number_end_of_lexeme(s: Seq<char>)
    requires
        is_number_lexeme(s),
    ensures
        s.len() > 0,
        is_digit(s[0]),
        number_end(s, 0) == s.len(),
{
    let p = |c: char| is_digit(c);
    if s.len() > 0 && all_digits(s) {
        assert forall|i: int| 0 <= i < s.len() implies p(#[trigger] s[i]) by {}
        lemma_run_end_at(s, 0, s.len() as int, p);
    } else {
        let dot = choose|dot: int|
            0 < dot < s.len() - 1 && #[trigger] s[dot] == '.' && all_digits(s.subrange(0, dot))
                && all_digits(s.subrange(dot + 1, s.len() as int));
        assert forall|i: int| 0 <= i < dot implies p(#[trigger] s[i]) by {
            assert(s[i] == s.subrange(0, dot)[i]);
        }
        assert forall|i: int| dot + 1 <= i < s.len() implies p(#[trigger] s[i]) by {
            assert(s[i] == s.subrange(dot + 1, s.len() as int)[i - dot - 1]);
        }
        lemma_run_end_at(s, 0, dot, p);
        lemma_run_end_at(s, dot + 1, s.len() as int, p);
        assert(p(s[0]));
        assert(p(s[dot + 1]));
    }
}

/// A text that is one number lexeme scans to one number token, whose lexeme
/// is the text, and the end marker; so, with its value, the token carries
/// what `number` makes of the text.
pub proof fn lemma_number_alone(s: Seq<char>, number: spec_fn(Seq<char>) -> Number)
    requires
        is_number_lexeme(s),
    ensures
        scan(s).tokens == seq![
            TokenView { kind: TokenType::Number, lexeme: s, literal: None, line: 1 },
            end_marker(1),
        ],
        scan(s).errors == Seq::<ErrorView>::empty(),
        all_valued(scan(s).tokens, number) == seq![
            TokenView {
                kind: TokenType::Number,
                lexeme: s,
                literal: Some(LiteralView::Number(number(s))),
                line: 1,
            },
            end_marker(1),
        ],
{
    lemma_number_end_of_lexeme(s);
    assert(s.subrange(0, s.len() as int) =~= s);
    reveal_with_fuel(scan_from, 2);
    assert(scan(s).tokens =~= seq![
        TokenView { kind: TokenType::Number, lexeme: s, literal: None, line: 1 },
        end_marker(1),
    ]);
    assert(scan(s).errors =~= Seq::<ErrorView>::empty());
    assert(all_valued(scan(s).tokens, number) =~= seq![
        TokenView {
            kind: TokenType::Number,
            lexeme: s,
            literal: Some(LiteralView::Number(number(s))),
            line: 1,
        },
        end_marker(1),
    ]);
}

/// Round trip of a number literal. Let `lexeme` be a number lexeme and
/// `value` what `number` makes of it. If the text of `value` is again a number
/// lexeme and `number` maps it back to `value`, then scanning that text gives
/// one number token with the same value. The two conditions are what is
/// asked of the conversions between text and numbers; they are not proved
/// here.
pub proof fn lemma_number_round_trip(
    lexeme: Seq<char>,
    number: spec_fn(Seq<char>) -> Number,
    text: spec_fn(Number) -> Seq<char>,
)
    requires
        is_number_lexeme(lexeme),
        is_number_lexeme(text(number(lexeme))),
        number(text(number(lexeme))) == number(lexeme),
    ensures
        ({
            let first = all_valued(scan(lexeme).tokens, number);
            let again = all_valued(scan(text(number(lexeme))).tokens, number);
            &&& first.len() == 2
            &&& again.len() == 2
            &&& again[0].kind == TokenType::Number
            &&& again[0].literal == first[0].literal
            &&& again[0].literal == Some(LiteralView::Number(number(lexeme)))
        }),
{
    lemma_number_alone(lexeme, number);
    lemma_number_alone(text(number(lexeme)), number);
}

/// No step produces an end marker.
pub proof fn lemma_step_is_no_end_marker(src: Seq<char>, pos: int, line: u64)
    requires
        0 <= pos < src.len(),
    ensures
        scan_token(src, pos, line).token matches Some(token) ==> token.kind
            != TokenType::Eof,
{
    let end = run_end(src, pos, |c: char| crate::lexis::is_alpha_numeric(c));
    crate::lexis::lemma_word_kind(src.subrange(pos, end));
}

/// The tokens that scanning finds in the text hold no end marker.
pub proof fn lemma_no_end_marker_inside(src: Seq<char>, pos: int, line: u64)
    requires
        0 <= pos,
    ensures
        forall|i: int|
            0 <= i < scan_from(src, pos, line).tokens.len() ==> (#[trigger] scan_from(
                src,
                pos,
                line,
            ).tokens[i]).kind != TokenType::Eof,
    decreases src.len() - pos,
{
    if pos < src.len() {
        let step = scan_token(src, pos, line);
        lemma_step_advances(src, pos, line);
        lemma_step_is_no_end_marker(src, pos, line);
        lemma_no_end_marker_inside(src, step.next, step.line);
    }
}

/// Scanning ends with exactly one end marker: the last token is the end
/// marker, on the last line and without a lexeme, and no token before it is
/// one.
pub proof fn lemma_one_end_marker(src: Seq<char>)
    ensures
        scan(src).tokens.len() > 0,
        scan(src).tokens.last() == end_marker(scan(src).line),
        forall|i: int|
            0 <= i < scan(src).tokens.len() - 1 ==> (#[trigger] scan(src).tokens[i]).kind
                != TokenType::Eof,
{
    lemma_no_end_marker_inside(src, 0, 1);
}

/// A primary that parses consumes at least one token and ends within the
/// tokens.
pub proof fn lemma_primary_advances(tokens: Seq<TokenView>, pos: int)
    ensures
        primary(tokens, pos).result is Ok ==> 0 <= pos < primary(tokens, pos).next
            <= tokens.len(),
    decreases tokens.len() - pos, 0int, 0int,
{
    if kind_at(tokens, pos) == TokenType::LeftParen {
        lemma_chain_advances(tokens, pos + 1, Level::Comma);
    }
}

/// A unary expression that parses consumes at least one token and ends
/// within the tokens.
pub proof fn lemma_unary_advances(tokens: Seq<TokenView>, pos: int)
    ensures
        unary(tokens, pos).result is Ok ==> 0 <= pos < unary(tokens, pos).next <= tokens.len(),
    decreases tokens.len() - pos, 1int, 0int,
{
    let kind = kind_at(tokens, pos);
    if kind == TokenType::Bang || kind == TokenType::Minus {
        lemma_unary_advances(tokens, pos + 1);
    } else {
        lemma_primary_advances(tokens, pos);
    }
}

/// An operand that parses consumes at least one token and ends within the
/// tokens.
pub proof fn lemma_operand_advances(tokens: Seq<TokenView>, pos: int, level: Level)
    ensures
        operand(tokens, pos, level).result is Ok ==> 0 <= pos < operand(tokens, pos, level).next
            <= tokens.len(),
    decreases tokens.len() - pos, crate::grammar::rank(level), 0int,
{
    match level {
        Level::Factor => lemma_unary_advances(tokens, pos),
        Level::Term => lemma_chain_advances(tokens, pos, Level::Factor),
        Level::Comparison => lemma_chain_advances(tokens, pos, Level::Term),
        Level::Equality => lemma_chain_advances(tokens, pos, Level::Comparison),
        Level::Comma => lemma_ternary_advances(tokens, pos),
    }
}

/// A chain that parses consumes at least one token and ends within the
/// tokens.
pub proof fn lemma_chain_advances(tokens: Seq<TokenView>, pos: int, level: Level)
    ensures
        chain(tokens, pos, level).result is Ok ==> 0 <= pos < chain(tokens, pos, level).next
            <= tokens.len(),
    decreases tokens.len() - pos, crate::grammar::rank(level), 2int,
{
    lemma_operand_advances(tokens, pos, level);
    let first = operand(tokens, pos, level);
    if first.result is Ok {
        lemma_chain_rest_advances(tokens, first.result->Ok_0, first.next, level);
    }
}

/// The rest of a chain that parses ends at or behind its start, within the
/// tokens.
pub proof fn lemma_chain_rest_advances(
    tokens: Seq<TokenView>,
    left: ExprView,
    pos: int,
    level: Level,
)
    requires
        0 <= pos <= tokens.len(),
    ensures
        chain_rest(tokens, left, pos, level).result is Ok ==> pos <= chain_rest(
            tokens,
            left,
            pos,
            level,
        ).next <= tokens.len(),
    decreases tokens.len() - pos, crate::grammar::rank(level), 1int,
{
    if is_operator(level, kind_at(tokens, pos)) {
        lemma_operand_advances(tokens, pos + 1, level);
        let right = operand(tokens, pos + 1, level);
        if right.result is Ok {
            lemma_chain_rest_advances(
                tokens,
                ExprView::Binary(Box::new(left), tokens[pos], Box::new(right.result->Ok_0)),
                right.next,
                level,
            );
        }
    }
}

/// A ternary that parses consumes at least one token and ends within the
/// tokens.
pub proof fn lemma_ternary_advances(tokens: Seq<TokenView>, pos: int)
    ensures
        ternary(tokens, pos).result is Ok ==> 0 <= pos < ternary(tokens, pos).next
            <= tokens.len(),
    decreases tokens.len() - pos, 6int, 0int,
{
    lemma_chain_advances(tokens, pos, Level::Equality);
    let condition = chain(tokens, pos, Level::Equality);
    if condition.result is Ok && kind_at(tokens, condition.next) == TokenType::Question {
        lemma_ternary_advances(tokens, condition.next + 1);
        let then_branch = ternary(tokens, condition.next + 1);
        if then_branch.result is Ok && kind_at(tokens, then_branch.next) == TokenType::Colon {
            lemma_ternary_advances(tokens, then_branch.next + 1);
        }
    }
}

/// Chains associate to the left. A chain is its first operand and the rest
/// behind it; where an operator of the level stands behind the operands
/// parsed so far, these become the left operand of a binary node whose right
/// operand is the next operand alone, and the chain goes on from that node.
pub proof fn lemma_chain_associates_left(
    tokens: Seq<TokenView>,
    left: ExprView,
    pos: int,
    level: Level,
)
    requires
        0 <= pos <= tokens.len(),
    ensures
        chain(tokens, pos, level) == match operand(tokens, pos, level).result {
            Ok(e) => chain_rest(tokens, e, operand(tokens, pos, level).next, level),
            Err(_) => operand(tokens, pos, level),
        },
        is_operator(level, kind_at(tokens, pos)) ==> chain_rest(tokens, left, pos, level)
            == match operand(tokens, pos + 1, level).result {
            Ok(e) => chain_rest(
                tokens,
                ExprView::Binary(Box::new(left), tokens[pos], Box::new(e)),
                operand(tokens, pos + 1, level).next,
                level,
            ),
            Err(_) => operand(tokens, pos + 1, level),
        },
        !is_operator(level, kind_at(tokens, pos)) ==> chain_rest(tokens, left, pos, level)
            == crate::grammar::parsed(left, pos),
{
    lemma_operand_advances(tokens, pos, level);
    lemma_operand_advances(tokens, pos + 1, level);
}

/// The ternary associates to the right. Where `?` follows the condition, the
/// two branches are whole ternaries: the tree is the condition, what
/// `ternary` parses behind the `?`, and what `ternary` parses behind the `:`,
/// up to the end of the whole.
pub proof fn lemma_ternary_associates_right(tokens: Seq<TokenView>, pos: int)
    requires
        chain(tokens, pos, Level::Equality).result is Ok,
        kind_at(tokens, chain(tokens, pos, Level::Equality).next) == TokenType::Question,
    ensures
        ({
            let condition = chain(tokens, pos, Level::Equality);
            let then_branch = ternary(tokens, condition.next + 1);
            let else_branch = ternary(tokens, then_branch.next + 1);
            ternary(tokens, pos) == if then_branch.result is Err {
                then_branch
            } else if kind_at(tokens, then_branch.next) != TokenType::Colon {
                crate::grammar::failed(
                    tokens,
                    then_branch.next,
                    "Expect ':' after ternary condition."@,
                )
            } else if else_branch.result is Err {
                else_branch
            } else {
                crate::grammar::parsed(
                    ExprView::Ternary(
                        Box::new(condition.result->Ok_0),
                        Box::new(then_branch.result->Ok_0),
                        Box::new(else_branch.result->Ok_0),
                    ),
                    else_branch.next,
                )
            }
        }),
{
    lemma_chain_advances(tokens, pos, Level::Equality);
    let condition = chain(tokens, pos, Level::Equality);
    lemma_ternary_advances(tokens, condition.next + 1);
}

/// Behind a ternary that parses no `?` stands: the ternary has taken it.
pub proof fn lemma_no_question_behind_ternary(tokens: Seq<TokenView>, pos: int)
    ensures
        ternary(tokens, pos).result is Ok ==> kind_at(tokens, ternary(tokens, pos).next)
            != TokenType::Question,
    decreases tokens.len() - pos,
{
    lemma_chain_advances(tokens, pos, Level::Equality);
    let condition = chain(tokens, pos, Level::Equality);
    if condition.result is Ok && kind_at(tokens, condition.next) == TokenType::Question {
        lemma_ternary_advances(tokens, condition.next + 1);
        let then_branch = ternary(tokens, condition.next + 1);
        if then_branch.result is Ok && kind_at(tokens, then_branch.next) == TokenType::Colon {
            lemma_no_question_behind_ternary(tokens, then_branch.next + 1);
        }
    }
}

/// A grouping is transparent to evaluation, and prints as its inside between
/// `(group ` and `)`.
pub proof fn lemma_grouping(
    inner: ExprView,
    arithmetic: spec_fn(TokenType, Number, Number) -> Number,
    number_text: spec_fn(Number) -> Seq<char>,
)
    ensures
        evaluated(ExprView::Grouping(Box::new(inner)), arithmetic) == evaluated(
            inner,
            arithmetic,
        ),
        printed(ExprView::Grouping(Box::new(inner)), number_text) == "(group "@ + printed(
            inner,
            number_text,
        ) + ")"@,
{
}

/// Two operands of different variants never combine: whatever the operator,
/// the evaluation fails at the operator's token.
pub proof fn lemma_mismatch_fails(
    left: ExprView,
    operator: TokenView,
    right: ExprView,
    arithmetic: spec_fn(TokenType, Number, Number) -> Number,
)
    requires
        evaluated(left, arithmetic) is Ok,
        evaluated(right, arithmetic) is Ok,
        !same_variant(evaluated(left, arithmetic)->Ok_0, evaluated(right, arithmetic)->Ok_0),
    ensures
        evaluated(ExprView::Binary(Box::new(left), operator, Box::new(right)), arithmetic)
            == failure(operator, "types don't match in binary expression"@),
{
}

/// The branch that the condition does not select is not evaluated: it has no
/// part in the result.
pub proof fn lemma_branch_not_taken(
    condition: ExprView,
    taken: ExprView,
    other: ExprView,
    another: ExprView,
    arithmetic: spec_fn(TokenType, Number, Number) -> Number,
)
    ensures
        evaluated(condition, arithmetic) == Ok::<ValueView, RuntimeErrorView>(
            ValueView::Boolean(true),
        ) ==> evaluated(
            ExprView::Ternary(Box::new(condition), Box::new(taken), Box::new(other)),
            arithmetic,
        ) == evaluated(taken, arithmetic) && evaluated(
            ExprView::Ternary(Box::new(condition), Box::new(taken), Box::new(another)),
            arithmetic,
        ) == evaluated(taken, arithmetic),
        evaluated(condition, arithmetic) == Ok::<ValueView, RuntimeErrorView>(
            ValueView::Boolean(false),
        ) ==> evaluated(
            ExprView::Ternary(Box::new(condition), Box::new(other), Box::new(taken)),
            arithmetic,
        ) == evaluated(taken, arithmetic) && evaluated(
            ExprView::Ternary(Box::new(condition), Box::new(another), Box::new(taken)),
            arithmetic,
        ) == evaluated(taken, arithmetic),
{
}

} // verus!
