//! What evaluation means: the value of a tree, or the error that stops the
//! evaluation.
//!
//! The result of an arithmetic operation on two numbers is not defined here.
//! `evaluated` takes it as a function; `evaluates` says what an outcome is
//! when a function that may give any of several results did the arithmetic.

use crate::errors::{RuntimeError, RuntimeErrorView};
use crate::number::Number;
use crate::syntax_tree::{ExprView, Value};
use crate::tokens::{LiteralView, TokenType, TokenView};
use vstd::prelude::*;

verus! {

/// What a `Value` stands for.
pub enum ValueView {
    Nil,
    Boolean(bool),
    Number(Number),
    String(Seq<char>),
}

/// What an evaluation gives: a value, or the error that stopped it.
pub type Outcome = Result<ValueView, RuntimeErrorView>;

/// What the result of an evaluation stands for.
pub open spec fn outcome_view(r: Result<Value, RuntimeError>) -> Outcome {
    match r {
        Ok(v) => Ok(v@),
        Err(e) => Err(e@),
    }
}

/// Nil and false are falsy; every other value is truthy.
pub open spec fn is_truthy(v: ValueView) -> bool {
    match v {
        ValueView::Nil => false,
        ValueView::Boolean(b) => b,
        _ => true,
    }
}

/// Whether two values are of the same variant.
pub open spec fn same_variant(a: ValueView, b: ValueView) -> bool {
    match (a, b) {
        (ValueView::Nil, ValueView::Nil) => true,
        (ValueView::Boolean(_), ValueView::Boolean(_)) => true,
        (ValueView::Number(_), ValueView::Number(_)) => true,
        (ValueView::String(_), ValueView::String(_)) => true,
        _ => false,
    }
}

/// The four operators whose result on two numbers is a number.
pub open spec fn is_arithmetic(kind: TokenType) -> bool {
    kind == TokenType::Plus || kind == TokenType::Minus || kind == TokenType::Slash || kind
        == TokenType::Star
}

/// The error at `token` with `message`.
pub open spec fn failure(token: TokenView, message: Seq<char>) -> Outcome {
    Err(RuntimeErrorView { token, message })
}

/// The value of a literal node: the literal as a value, and nil for none.
pub open spec fn literal_value(l: Option<LiteralView>) -> ValueView {
    match l {
        Some(LiteralView::Number(n)) => ValueView::Number(n),
        Some(LiteralView::String(s)) => ValueView::String(s),
        Some(LiteralView::Bool(b)) => ValueView::Boolean(b),
        Some(LiteralView::Nil) => ValueView::Nil,
        None => ValueView::Nil,
    }
}

/// A unary operator on a value: `!` negates truthiness, `-` negates a number
/// and fails on anything else.
pub open spec fn unary_result(operator: TokenView, right: ValueView) -> Outcome {
    if operator.kind == TokenType::Bang {
        Ok(ValueView::Boolean(!is_truthy(right)))
    } else if operator.kind == TokenType::Minus {
        match right {
            ValueView::Number(n) => Ok(ValueView::Number(n.negated())),
            _ => failure(operator, "operand must be a number"@),
        }
    } else {
        failure(operator, "Invalid operator in unary expression."@)
    }
}

/// A unary operator on the outcome of its operand: an error of the operand is
/// the error of the whole.
pub open spec fn unary_outcome(operator: TokenView, right: Outcome) -> Outcome {
    match right {
        Ok(v) => unary_result(operator, v),
        Err(e) => Err(e),
    }
}

/// Whether a binary operator on these two values is arithmetic on two
/// numbers.
pub open spec fn asks_arithmetic(operator: TokenView, left: ValueView, right: ValueView) -> bool {
    left is Number && right is Number && is_arithmetic(operator.kind)
}

/// A binary operator on two numbers that compares them: the boolean, or the
/// error of an operator that is no comparison.
pub open spec fn comparison_result(operator: TokenView, l: Number, r: Number) -> Outcome {
    let kind = operator.kind;
    if kind == TokenType::Greater {
        Ok(ValueView::Boolean(r.less(l)))
    } else if kind == TokenType::GreaterEqual {
        Ok(ValueView::Boolean(r.at_most(l)))
    } else if kind == TokenType::Less {
        Ok(ValueView::Boolean(l.less(r)))
    } else if kind == TokenType::LessEqual {
        Ok(ValueView::Boolean(l.at_most(r)))
    } else if kind == TokenType::BangEqual {
        Ok(ValueView::Boolean(!l.same(r)))
    } else if kind == TokenType::EqualEqual {
        Ok(ValueView::Boolean(l.same(r)))
    } else {
        failure(operator, "invalid binary expression operator"@)
    }
}

/// A binary operator on two values, where it is not arithmetic on two
/// numbers. Values of different variants do not combine. Two numbers are
/// compared, two strings combine only by `+`, which joins them, and nothing
/// else combines.
pub open spec fn plain_result(operator: TokenView, left: ValueView, right: ValueView) -> Outcome
    recommends
        !asks_arithmetic(operator, left, right),
{
    if !same_variant(left, right) {
        failure(operator, "types don't match in binary expression"@)
    } else {
        match (left, right) {
            (ValueView::Number(l), ValueView::Number(r)) => comparison_result(operator, l, r),
            (ValueView::String(l), ValueView::String(r)) => if operator.kind == TokenType::Plus {
                Ok(ValueView::String(l + r))
            } else {
                failure(operator, "invalid binary expression operator"@)
            },
            _ => failure(operator, "invalid binary expression operator"@),
        }
    }
}

/// A binary operator on two values: arithmetic on two numbers gives the
/// number that `arithmetic` names, and anything else is what `plain_result`
/// says.
pub open spec fn binary_result(
    operator: TokenView,
    left: ValueView,
    right: ValueView,
    arithmetic: spec_fn(TokenType, Number, Number) -> Number,
) -> Outcome {
    if asks_arithmetic(operator, left, right) {
        Ok(ValueView::Number(arithmetic(operator.kind, left->Number_0, right->Number_0)))
    } else {
        plain_result(operator, left, right)
    }
}

/// A binary operator on the outcomes of its operands: the first error from
/// the left is the error of the whole.
pub open spec fn binary_outcome(
    operator: TokenView,
    left: Outcome,
    right: Outcome,
    arithmetic: spec_fn(TokenType, Number, Number) -> Number,
) -> Outcome {
    match left {
        Ok(l) => match right {
            Ok(r) => binary_result(operator, l, r, arithmetic),
            Err(e) => Err(e),
        },
        Err(e) => Err(e),
    }
}

/// The token that the error of a condition that is no boolean carries.
pub open spec fn condition_token() -> TokenView {
    TokenView { kind: TokenType::Question, lexeme: "?"@, literal: None, line: 0 }
}

/// Which branch the outcome of a condition selects: the then-branch for true,
/// the else-branch for false, and none, with an error, for anything else.
pub open spec fn branch(condition: Outcome) -> Result<bool, RuntimeErrorView> {
    match condition {
        Ok(ValueView::Boolean(b)) => Ok(b),
        Ok(_) => Err(
            RuntimeErrorView {
                token: condition_token(),
                message: "We shouldn't be here... ternary condition didn't returned a boolean."@,
            },
        ),
        Err(e) => Err(e),
    }
}

/// What a tree evaluates to, `arithmetic` being the result of an arithmetic
/// operation. Operands are evaluated from left to right and the first error
/// ends the evaluation; of the two branches of a ternary only the one that
/// the condition selects is evaluated.
pub open spec fn evaluated(
    e: ExprView,
    arithmetic: spec_fn(TokenType, Number, Number) -> Number,
) -> Outcome
    decreases e,
{
    match e {
        ExprView::Literal(l) => Ok(literal_value(l)),
        ExprView::Grouping(inner) => evaluated(*inner, arithmetic),
        ExprView::Unary(operator, right) => unary_outcome(operator, evaluated(*right, arithmetic)),
        ExprView::Binary(left, operator, right) => binary_outcome(
            operator,
            evaluated(*left, arithmetic),
            evaluated(*right, arithmetic),
            arithmetic,
        ),
        ExprView::Ternary(condition, then_branch, else_branch) => match branch(
            evaluated(*condition, arithmetic),
        ) {
            Ok(true) => evaluated(*then_branch, arithmetic),
            Ok(false) => evaluated(*else_branch, arithmetic),
            Err(e) => Err(e),
        },
    }
}

/// `out` is an outcome of a binary operator on two values, where `f` does the
/// arithmetic: for arithmetic on two numbers a number that `f` gave for them,
/// and else what `plain_result` says.
pub open spec fn operation_gives<F: Fn(TokenType, Number, Number) -> Number>(
    f: &F,
    operator: TokenView,
    left: ValueView,
    right: ValueView,
    out: Outcome,
) -> bool {
    if asks_arithmetic(operator, left, right) {
        out matches Ok(ValueView::Number(n)) && call_ensures(
            *f,
            (operator.kind, left->Number_0, right->Number_0),
            n,
        )
    } else {
        out == plain_result(operator, left, right)
    }
}

/// `out` is an outcome of a binary operator on the outcomes of its operands.
/// After an error on the left the right operand has no part.
pub open spec fn binary_gives<F: Fn(TokenType, Number, Number) -> Number>(
    f: &F,
    operator: TokenView,
    left: Outcome,
    right: Outcome,
    out: Outcome,
) -> bool {
    match left {
        Ok(l) => match right {
            Ok(r) => operation_gives(f, operator, l, r, out),
            Err(e) => out == Err::<ValueView, RuntimeErrorView>(e),
        },
        Err(e) => out == Err::<ValueView, RuntimeErrorView>(e),
    }
}

/// `out` is an outcome of evaluating the tree, where `f` does the arithmetic.
pub open spec fn evaluates<F: Fn(TokenType, Number, Number) -> Number>(
    e: ExprView,
    f: &F,
    out: Outcome,
) -> bool
    decreases e,
{
    match e {
        ExprView::Literal(l) => out == Ok::<ValueView, RuntimeErrorView>(literal_value(l)),
        ExprView::Grouping(inner) => evaluates(*inner, f, out),
        ExprView::Unary(operator, right) => exists|r: Outcome|
            evaluates(*right, f, r) && out == #[trigger] unary_outcome(operator, r),
        ExprView::Binary(left, operator, right) => exists|l: Outcome, r: Outcome|
            evaluates(*left, f, l) && (l is Ok ==> evaluates(*right, f, r))
                && #[trigger] binary_gives(f, operator, l, r, out),
        ExprView::Ternary(condition, then_branch, else_branch) => exists|c: Outcome|
            evaluates(*condition, f, c) && match #[trigger] branch(c) {
                Ok(true) => evaluates(*then_branch, f, out),
                Ok(false) => evaluates(*else_branch, f, out),
                Err(e) => out == Err::<ValueView, RuntimeErrorView>(e),
            },
    }
}

/// `m` says what number the function `f` gives for each operation.
pub open spec fn models_arithmetic<F: Fn(TokenType, Number, Number) -> Number>(
    f: &F,
    m: spec_fn(TokenType, Number, Number) -> Number,
) -> bool {
    forall|kind: TokenType, a: Number, b: Number, r: Number|
        call_ensures(*f, (kind, a, b), r) ==> r == m(kind, a, b)
}

/// `f` can be called on every arithmetic operator and every two numbers.
pub open spec fn computes<F: Fn(TokenType, Number, Number) -> Number>(f: &F) -> bool {
    forall|kind: TokenType, a: Number, b: Number|
        is_arithmetic(kind) ==> call_requires(*f, (kind, a, b))
}

/// Where `m` says what `f` gives for each operation, a tree has one outcome:
/// the one with the arithmetic of `m`.
pub proof fn lemma_evaluates_one<F: Fn(TokenType, Number, Number) -> Number>(
    e: ExprView,
    f: &F,
    m: spec_fn(TokenType, Number, Number) -> Number,
    out: Outcome,
)
    requires
        models_arithmetic(f, m),
        evaluates(e, f, out),
    ensures
        out == evaluated(e, m),
    decreases e,
{
    match e {
        ExprView::Literal(_) => {},
        ExprView::Grouping(inner) => {
            lemma_evaluates_one(*inner, f, m, out);
        },
        ExprView::Unary(operator, right) => {
            let r = choose|r: Outcome|
                evaluates(*right, f, r) && out == #[trigger] unary_outcome(operator, r);
            lemma_evaluates_one(*right, f, m, r);
        },
        ExprView::Binary(left, operator, right) => {
            let (l, r) = choose|l: Outcome, r: Outcome|
                evaluates(*left, f, l) && (l is Ok ==> evaluates(*right, f, r))
                    && #[trigger] binary_gives(f, operator, l, r, out);
            lemma_evaluates_one(*left, f, m, l);
            if l is Ok {
                lemma_evaluates_one(*right, f, m, r);
            }
        },
        ExprView::Ternary(condition, then_branch, else_branch) => {
            let c = choose|c: Outcome|
                evaluates(*condition, f, c) && match #[trigger] branch(c) {
                    Ok(true) => evaluates(*then_branch, f, out),
                    Ok(false) => evaluates(*else_branch, f, out),
                    Err(e) => out == Err::<ValueView, RuntimeErrorView>(e),
                };
            lemma_evaluates_one(*condition, f, m, c);
            match branch(c) {
                Ok(true) => lemma_evaluates_one(*then_branch, f, m, out),
                Ok(false) => lemma_evaluates_one(*else_branch, f, m, out),
                Err(_) => {},
            }
        },
    }
}

/// What evaluating a tree shows: the value, or the report of the error that
/// stopped the evaluation.
pub open spec fn interpreted(
    e: ExprView,
    arithmetic: spec_fn(TokenType, Number, Number) -> Number,
) -> Result<ValueView, Seq<char>> {
    match evaluated(e, arithmetic) {
        Ok(v) => Ok(v),
        Err(e) => Err(crate::errors::runtime_report(e)),
    }
}

} // verus!
