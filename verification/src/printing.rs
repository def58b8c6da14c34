//! What printing means: the prefix form of a tree, fully parenthesised.
//!
//! The text of a number is not defined here. `printed` takes it as a
//! function; `prints` says what a text is when a function that may give any
//! of several texts for a number rendered the numbers.

use crate::number::Number;
use crate::syntax_tree::ExprView;
use crate::tokens::{literal_prints, literal_text, models_text};
use vstd::prelude::*;

verus! {

/// `(ternary <condition> ? <then> : <else>)`.
pub open spec fn ternary_text(
    condition: Seq<char>,
    then_branch: Seq<char>,
    else_branch: Seq<char>,
) -> Seq<char> {
    "(ternary "@ + condition + " ? "@ + then_branch + " : "@ + else_branch + ")"@
}

/// `(<operator> <left> <right>)`.
pub open spec fn binary_text(operator: Seq<char>, left: Seq<char>, right: Seq<char>) -> Seq<
    char,
> {
    "("@ + operator + " "@ + left + " "@ + right + ")"@
}

/// `(<operator> <right>)`.
pub open spec fn unary_text(operator: Seq<char>, right: Seq<char>) -> Seq<char> {
    "("@ + operator + " "@ + right + ")"@
}

/// `(group <inner>)`.
pub open spec fn group_text(inner: Seq<char>) -> Seq<char> {
    "(group "@ + inner + ")"@
}

/// The prefix form of a tree, `number_text` being the text of a number. A
/// literal node that holds nothing is written `Nil`.
pub open spec fn printed(e: ExprView, number_text: spec_fn(Number) -> Seq<char>) -> Seq<char>
    decreases e,
{
    match e {
        ExprView::Ternary(c, t, o) => ternary_text(
            printed(*c, number_text),
            printed(*t, number_text),
            printed(*o, number_text),
        ),
        ExprView::Binary(l, op, r) => binary_text(
            op.lexeme,
            printed(*l, number_text),
            printed(*r, number_text),
        ),
        ExprView::Unary(op, r) => unary_text(op.lexeme, printed(*r, number_text)),
        ExprView::Grouping(inner) => group_text(printed(*inner, number_text)),
        ExprView::Literal(Some(v)) => literal_text(v, number_text),
        ExprView::Literal(None) => "Nil"@,
    }
}

/// `s` is a prefix form of the tree, where `f` renders the numbers: the parts
/// are prefix forms of the subtrees, and a number is a text that `f` gave for
/// it.
pub open spec fn prints<F: Fn(Number) -> String>(e: ExprView, f: &F, s: Seq<char>) -> bool
    decreases e,
{
    match e {
        ExprView::Ternary(c, t, o) => exists|a: Seq<char>, b: Seq<char>, d: Seq<char>|
            prints(*c, f, a) && prints(*t, f, b) && prints(*o, f, d) && s
                == #[trigger] ternary_text(a, b, d),
        ExprView::Binary(l, op, r) => exists|a: Seq<char>, b: Seq<char>|
            prints(*l, f, a) && prints(*r, f, b) && s == #[trigger] binary_text(op.lexeme, a, b),
        ExprView::Unary(op, r) => exists|a: Seq<char>|
            prints(*r, f, a) && s == #[trigger] unary_text(op.lexeme, a),
        ExprView::Grouping(inner) => exists|a: Seq<char>|
            prints(*inner, f, a) && s == #[trigger] group_text(a),
        ExprView::Literal(Some(v)) => literal_prints(f, v, s),
        ExprView::Literal(None) => s == "Nil"@,
    }
}

/// Where `m` says what `f` gives for each number, a tree has one prefix form:
/// the one with the texts of `m`.
pub proof fn lemma_prints_one<F: Fn(Number) -> String>(
    e: ExprView,
    f: &F,
    m: spec_fn(Number) -> Seq<char>,
    s: Seq<char>,
)
    requires
        models_text(f, m),
        prints(e, f, s),
    ensures
        s == printed(e, m),
    decreases e,
{
    match e {
        ExprView::Ternary(c, t, o) => {
            let (a, b, d) = choose|a: Seq<char>, b: Seq<char>, d: Seq<char>|
                prints(*c, f, a) && prints(*t, f, b) && prints(*o, f, d) && s
                    == #[trigger] ternary_text(a, b, d);
            lemma_prints_one(*c, f, m, a);
            lemma_prints_one(*t, f, m, b);
            lemma_prints_one(*o, f, m, d);
        },
        ExprView::Binary(l, op, r) => {
            let (a, b) = choose|a: Seq<char>, b: Seq<char>|
                prints(*l, f, a) && prints(*r, f, b) && s == #[trigger] binary_text(
                    op.lexeme,
                    a,
                    b,
                );
            lemma_prints_one(*l, f, m, a);
            lemma_prints_one(*r, f, m, b);
        },
        ExprView::Unary(op, r) => {
            let a = choose|a: Seq<char>|
                prints(*r, f, a) && s == #[trigger] unary_text(op.lexeme, a);
            lemma_prints_one(*r, f, m, a);
        },
        ExprView::Grouping(inner) => {
            let a = choose|a: Seq<char>| prints(*inner, f, a) && s == #[trigger] group_text(a);
            lemma_prints_one(*inner, f, m, a);
        },
        ExprView::Literal(_) => {},
    }
}

} // verus!
