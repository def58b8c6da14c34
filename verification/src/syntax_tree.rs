//! The expression tree, its rendering in prefix form, and its evaluation.
//!
//! Printing and evaluation each take a function for the one thing they do not
//! do themselves: the first for the text of a number, the second for the
//! result of an arithmetic operation on two numbers.

use crate::errors::{runtime_report, RuntimeError, RuntimeErrorView};
use crate::evaluation::{
    binary_gives, binary_result, branch, computes, evaluated, evaluates, failure, interpreted,
    is_truthy, models_arithmetic, operation_gives, outcome_view, same_variant, unary_outcome,
    ValueView,
};
use crate::number::Number;
use crate::printing::{binary_text, group_text, printed, prints, ternary_text, unary_text};
use crate::tokens::{
    models_text, writes_numbers, LiteralType, LiteralView, Token, TokenType, TokenView,
};
use vstd::prelude::*;

verus! {

/// An expression.
#[derive(Debug, PartialEq)]
pub enum Expr {
    Ternary(Box<Ternary>),
    Binary(Box<Binary>),
    Unary(Box<Unary>),
    Grouping(Box<Grouping>),
    Literal(Literal),
}

/// `condition ? then_branch : else_branch`.
#[derive(Debug, PartialEq)]
pub struct Ternary {
    condition: Expr,
    then_branch: Expr,
    else_branch: Expr,
}

/// `left operator right`.
#[derive(Debug, PartialEq)]
pub struct Binary {
    left: Expr,
    operator: Token,
    right: Expr,
}

/// `operator right`.
#[derive(Debug, PartialEq)]
pub struct Unary {
    operator: Token,
    right: Expr,
}

/// `( expression )`.
#[derive(Debug, PartialEq)]
pub struct Grouping {
    expression: Expr,
}

/// A literal value, or none.
#[derive(Debug, PartialEq)]
pub struct Literal {
    value: Option<LiteralType>,
}

/// What an expression stands for: the tree, with texts as sequences of
/// characters.
pub enum ExprView {
    Ternary(Box<ExprView>, Box<ExprView>, Box<ExprView>),
    Binary(Box<ExprView>, TokenView, Box<ExprView>),
    Unary(TokenView, Box<ExprView>),
    Grouping(Box<ExprView>),
    Literal(Option<LiteralView>),
}

/// The tree of an expression: that of the node it holds.
pub open spec fn expr_view(e: Expr) -> ExprView
    decreases e,
{
    match e {
        Expr::Ternary(t) => ternary_view(*t),
        Expr::Binary(b) => binary_view(*b),
        Expr::Unary(u) => unary_view(*u),
        Expr::Grouping(g) => grouping_view(*g),
        Expr::Literal(l) => literal_view(l),
    }
}

/// The tree of a literal node.
pub closed spec fn literal_view(l: Literal) -> ExprView {
    ExprView::Literal(l.value.deep_view())
}

/// The tree of a ternary node.
pub closed spec fn ternary_view(t: Ternary) -> ExprView
    decreases t,
{
    ExprView::Ternary(
        Box::new(expr_view(t.condition)),
        Box::new(expr_view(t.then_branch)),
        Box::new(expr_view(t.else_branch)),
    )
}

/// The tree of a binary node.
pub closed spec fn binary_view(b: Binary) -> ExprView
    decreases b,
{
    ExprView::Binary(Box::new(expr_view(b.left)), b.operator@, Box::new(expr_view(b.right)))
}

/// The tree of a unary node.
pub closed spec fn unary_view(u: Unary) -> ExprView
    decreases u,
{
    ExprView::Unary(u.operator@, Box::new(expr_view(u.right)))
}

/// The tree of a grouping node.
pub closed spec fn grouping_view(g: Grouping) -> ExprView
    decreases g,
{
    ExprView::Grouping(Box::new(expr_view(g.expression)))
}

impl View for Expr {
    type V = ExprView;

    open spec fn view(&self) -> ExprView {
        expr_view(*self)
    }
}

impl View for Ternary {
    type V = ExprView;

    open spec fn view(&self) -> ExprView {
        ternary_view(*self)
    }
}

impl View for Binary {
    type V = ExprView;

    open spec fn view(&self) -> ExprView {
        binary_view(*self)
    }
}

impl View for Unary {
    type V = ExprView;

    open spec fn view(&self) -> ExprView {
        unary_view(*self)
    }
}

impl View for Grouping {
    type V = ExprView;

    open spec fn view(&self) -> ExprView {
        grouping_view(*self)
    }
}

impl View for Literal {
    type V = ExprView;

    open spec fn view(&self) -> ExprView {
        literal_view(*self)
    }
}

/// The tree of a node is of the node's kind.
pub proof fn lemma_node_views(t: Ternary, b: Binary, u: Unary, g: Grouping, l: Literal)
    ensures
        t@ is Ternary,
        b@ is Binary,
        u@ is Unary,
        g@ is Grouping,
        l@ is Literal,
{
}

impl Ternary {
    /// The node `cond ? th : el`.
    pub fn new(cond: Expr, th: Expr, el: Expr) -> (t: Ternary)
        ensures
            t@ == ExprView::Ternary(Box::new(cond@), Box::new(th@), Box::new(el@)),
    {
        Ternary { condition: cond, then_branch: th, else_branch: el }
    }
}

impl Binary {
    /// The node `l op r`.
    pub fn new(l: Expr, op: Token, r: Expr) -> (b: Binary)
        ensures
            b@ == ExprView::Binary(Box::new(l@), op@, Box::new(r@)),
    {
        Binary { left: l, operator: op, right: r }
    }
}

impl Unary {
    /// The node `op r`.
    pub fn new(op: Token, r: Expr) -> (u: Unary)
        ensures
            u@ == ExprView::Unary(op@, Box::new(r@)),
    {
        Unary { operator: op, right: r }
    }
}

impl Grouping {
    /// The node `( e )`.
    pub fn new(e: Expr) -> (g: Grouping)
        ensures
            g@ == ExprView::Grouping(Box::new(e@)),
    {
        Grouping { expression: e }
    }
}

impl Literal {
    /// The literal node that holds `v`.
    pub fn new(v: LiteralType) -> (l: Literal)
        ensures
            l@ == ExprView::Literal(Some(v@)),
    {
        Literal { value: Some(v) }
    }

    /// The literal node that holds `value`, which may be none.
    pub fn holding(value: Option<LiteralType>) -> (l: Literal)
        ensures
            l@ == ExprView::Literal(value.deep_view()),
    {
        Literal { value }
    }
}

/// Rendering in prefix form.
pub trait PrettyPrint: View<V = ExprView> {
    /// The prefix form of the tree; `number_text` renders a number.
    fn pretty_print<F: Fn(Number) -> String>(&self, number_text: &F) -> (s: String)
        requires
            writes_numbers(number_text),
        ensures
            prints(self@, number_text, s@),
            forall|m: spec_fn(Number) -> Seq<char>| #[trigger]
                models_text(number_text, m) ==> s@ == printed(self@, m),
    ;
}

impl PrettyPrint for Expr {
    fn pretty_print<F: Fn(Number) -> String>(&self, number_text: &F) -> (s: String)
        decreases self,
    {
        match self {
            Expr::Ternary(e) => e.pretty_print(number_text),
            Expr::Binary(e) => e.pretty_print(number_text),
            Expr::Unary(e) => e.pretty_print(number_text),
            Expr::Grouping(e) => e.pretty_print(number_text),
            Expr::Literal(e) => e.pretty_print(number_text),
        }
    }
}

impl PrettyPrint for Ternary {
    fn pretty_print<F: Fn(Number) -> String>(&self, number_text: &F) -> (s: String)
        decreases self,
    {
        let condition = self.condition.pretty_print(number_text);
        let then_branch = self.then_branch.pretty_print(number_text);
        let else_branch = self.else_branch.pretty_print(number_text);
        let mut s = String::from_str("(ternary ");
        s.append(condition.as_str());
        s.append(" ? ");
        s.append(then_branch.as_str());
        s.append(" : ");
        s.append(else_branch.as_str());
        s.append(")");
        assert(s@ == ternary_text(condition@, then_branch@, else_branch@));
        s
    }
}

impl PrettyPrint for Binary {
    fn pretty_print<F: Fn(Number) -> String>(&self, number_text: &F) -> (s: String)
        decreases self,
    {
        let left = self.left.pretty_print(number_text);
        let right = self.right.pretty_print(number_text);
        let mut s = String::from_str("(");
        s.append(self.operator.lexeme.as_str());
        s.append(" ");
        s.append(left.as_str());
        s.append(" ");
        s.append(right.as_str());
        s.append(")");
        assert(s@ == binary_text(self.operator@.lexeme, left@, right@));
        s
    }
}

impl PrettyPrint for Unary {
    fn pretty_print<F: Fn(Number) -> String>(&self, number_text: &F) -> (s: String)
        decreases self,
    {
        let right = self.right.pretty_print(number_text);
        let mut s = String::from_str("(");
        s.append(self.operator.lexeme.as_str());
        s.append(" ");
        s.append(right.as_str());
        s.append(")");
        assert(s@ == unary_text(self.operator@.lexeme, right@));
        s
    }
}

impl PrettyPrint for Grouping {
    fn pretty_print<F: Fn(Number) -> String>(&self, number_text: &F) -> (s: String)
        decreases self,
    {
        let inner = self.expression.pretty_print(number_text);
        let mut s = String::from_str("(group ");
        s.append(inner.as_str());
        s.append(")");
        assert(s@ == group_text(inner@));
        s
    }
}

impl PrettyPrint for Literal {
    fn pretty_print<F: Fn(Number) -> String>(&self, number_text: &F) -> (s: String) {
        match &self.value {
            Some(v) => v.text(number_text),
            None => String::from_str("Nil"),
        }
    }
}

/// The prefix form of `expr`; `number_text` renders a number.
pub fn ast_print<F: Fn(Number) -> String>(expr: Expr, number_text: &F) -> (s: String)
    requires
        writes_numbers(number_text),
    ensures
        prints(expr@, number_text, s@),
        forall|m: spec_fn(Number) -> Seq<char>| #[trigger]
            models_text(number_text, m) ==> s@ == printed(expr@, m),
{
    expr.pretty_print(number_text)
}

/// A value of the language.
#[derive(Clone, Debug, PartialEq)]
pub enum Value {
    Nil,
    Boolean(bool),
    Number(Number),
    String(String),
}

impl View for Value {
    type V = ValueView;

    open spec fn view(&self) -> ValueView {
        match self {
            Value::Nil => ValueView::Nil,
            Value::Boolean(b) => ValueView::Boolean(*b),
            Value::Number(n) => ValueView::Number(*n),
            Value::String(s) => ValueView::String(s@),
        }
    }
}

impl Value {
    /// Whether the value counts as true.
    pub fn is_truthy(&self) -> (b: bool)
        ensures
            b == is_truthy(self@),
    {
        match self {
            Value::Nil => false,
            Value::Boolean(b) => *b,
            _ => true,
        }
    }

    /// Whether the two values are of the same variant.
    pub fn variant_eq(a: &Value, b: &Value) -> (same: bool)
        ensures
            same == same_variant(a@, b@),
    {
        match (a, b) {
            (Value::Nil, Value::Nil) => true,
            (Value::Boolean(_), Value::Boolean(_)) => true,
            (Value::Number(_), Value::Number(_)) => true,
            (Value::String(_), Value::String(_)) => true,
            _ => false,
        }
    }
}

/// Evaluation.
pub trait Eval: View<V = ExprView> {
    /// The value of the tree, or the error that stopped the evaluation;
    /// `arithmetic` adds, subtracts, multiplies and divides two numbers.
    ///
    /// The outcome is one that the tree has with the results that
    /// `arithmetic` gave; where `arithmetic` is known to compute a function,
    /// it is the outcome with that function.
    fn eval<F: Fn(TokenType, Number, Number) -> Number>(&self, arithmetic: &F) -> (out: Result<
        Value,
        RuntimeError,
    >)
        requires
            computes(arithmetic),
        ensures
            evaluates(self@, arithmetic, outcome_view(out)),
            forall|m: spec_fn(TokenType, Number, Number) -> Number| #[trigger]
                models_arithmetic(arithmetic, m) ==> outcome_view(out) == evaluated(self@, m),
    ;
}

impl Eval for Expr {
    fn eval<F: Fn(TokenType, Number, Number) -> Number>(&self, arithmetic: &F) -> (out: Result<
        Value,
        RuntimeError,
    >)
        decreases self,
    {
        match self {
            Expr::Ternary(t) => t.eval(arithmetic),
            Expr::Binary(b) => b.eval(arithmetic),
            Expr::Unary(u) => u.eval(arithmetic),
            Expr::Grouping(g) => g.eval(arithmetic),
            Expr::Literal(l) => l.eval(arithmetic),
        }
    }
}

/// The error at `token` with `message`.
fn fail(token: &Token, message: &str) -> (out: Result<Value, RuntimeError>)
    ensures
        outcome_view(out) == failure(token@, message@),
{
    Err(RuntimeError::new(token.duplicate(), String::from_str(message)))
}

impl Eval for Ternary {
    fn eval<F: Fn(TokenType, Number, Number) -> Number>(&self, arithmetic: &F) -> (out: Result<
        Value,
        RuntimeError,
    >)
        decreases self,
    {
        let condition = self.condition.eval(arithmetic);
        let ghost selected = branch(outcome_view(condition));
        match condition {
            Ok(Value::Boolean(b)) => {
                if b {
                    return self.then_branch.eval(arithmetic);
                }
                self.else_branch.eval(arithmetic)
            },
            Ok(_) => {
                let token = Token {
                    kind: TokenType::Question,
                    lexeme: String::from_str("?"),
                    literal: None,
                    line: 0,
                };
                fail(
                    &token,
                    "We shouldn't be here... ternary condition didn't returned a boolean.",
                )
            },
            Err(e) => Err(e),
        }
    }
}

/// Applies a binary operator to two numbers: the arithmetic is done by
/// `arithmetic`, the comparisons are made here.
pub fn number_operation<F: Fn(TokenType, Number, Number) -> Number>(
    operator: &Token,
    l: Number,
    r: Number,
    arithmetic: &F,
) -> (out: Result<Value, RuntimeError>)
    requires
        computes(arithmetic),
    ensures
        operation_gives(
            arithmetic,
            operator@,
            ValueView::Number(l),
            ValueView::Number(r),
            outcome_view(out),
        ),
        forall|m: spec_fn(TokenType, Number, Number) -> Number| #[trigger]
            models_arithmetic(arithmetic, m) ==> outcome_view(out) == binary_result(
                operator@,
                ValueView::Number(l),
                ValueView::Number(r),
                m,
            ),
{
    match operator.kind {
        TokenType::Plus => Ok(Value::Number(arithmetic(TokenType::Plus, l, r))),
        TokenType::Minus => Ok(Value::Number(arithmetic(TokenType::Minus, l, r))),
        TokenType::Slash => Ok(Value::Number(arithmetic(TokenType::Slash, l, r))),
        TokenType::Star => Ok(Value::Number(arithmetic(TokenType::Star, l, r))),
        TokenType::Greater => Ok(Value::Boolean(l.gt(r))),
        TokenType::GreaterEqual => Ok(Value::Boolean(l.ge(r))),
        TokenType::Less => Ok(Value::Boolean(l.lt(r))),
        TokenType::LessEqual => Ok(Value::Boolean(l.le(r))),
        TokenType::BangEqual => Ok(Value::Boolean(!l.equals(r))),
        TokenType::EqualEqual => Ok(Value::Boolean(l.equals(r))),
        _ => fail(operator, "invalid binary expression operator"),
    }
}

impl Eval for Binary {
    fn eval<F: Fn(TokenType, Number, Number) -> Number>(&self, arithmetic: &F) -> (out: Result<
        Value,
        RuntimeError,
    >)
        decreases self,
    {
        let left = self.left.eval(arithmetic);
        let ghost l = outcome_view(left);
        let left = match left {
            Ok(value) => value,
            Err(e) => {
                assert(binary_gives(arithmetic, self.operator@, l, l, Err(e@)));
                return Err(e);
            },
        };
        let right = self.right.eval(arithmetic);
        let ghost r = outcome_view(right);
        let right = match right {
            Ok(value) => value,
            Err(e) => {
                assert(binary_gives(arithmetic, self.operator@, l, r, Err(e@)));
                return Err(e);
            },
        };
        let out = if !Value::variant_eq(&left, &right) {
            fail(&self.operator, "types don't match in binary expression")
        } else {
            match (left, right) {
                (Value::Number(l), Value::Number(r)) => number_operation(
                    &self.operator,
                    l,
                    r,
                    arithmetic,
                ),
                (Value::String(l), Value::String(r)) => match self.operator.kind {
                    TokenType::Plus => Ok(Value::String(l.concat(r.as_str()))),
                    _ => fail(&self.operator, "invalid binary expression operator"),
                },
                _ => fail(&self.operator, "invalid binary expression operator"),
            }
        };
        assert(binary_gives(arithmetic, self.operator@, l, r, outcome_view(out)));
        out
    }
}

impl Eval for Unary {
    fn eval<F: Fn(TokenType, Number, Number) -> Number>(&self, arithmetic: &F) -> (out: Result<
        Value,
        RuntimeError,
    >)
        decreases self,
    {
        let right = self.right.eval(arithmetic);
        let ghost r = outcome_view(right);
        let out = match right {
            Ok(value) => match self.operator.kind {
                TokenType::Bang => Ok(Value::Boolean(!value.is_truthy())),
                TokenType::Minus => match value {
                    Value::Number(n) => Ok(Value::Number(n.neg())),
                    _ => fail(&self.operator, "operand must be a number"),
                },
                _ => fail(&self.operator, "Invalid operator in unary expression."),
            },
            Err(e) => Err(e),
        };
        assert(outcome_view(out) == unary_outcome(self.operator@, r));
        out
    }
}

impl Eval for Grouping {
    fn eval<F: Fn(TokenType, Number, Number) -> Number>(&self, arithmetic: &F) -> (out: Result<
        Value,
        RuntimeError,
    >)
        decreases self,
    {
        self.expression.eval(arithmetic)
    }
}

impl Eval for Literal {
    fn eval<F: Fn(TokenType, Number, Number) -> Number>(&self, arithmetic: &F) -> (out: Result<
        Value,
        RuntimeError,
    >) {
        Ok(
            match &self.value {
                Some(LiteralType::Number(v)) => Value::Number(*v),
                Some(LiteralType::String(v)) => Value::String(v.clone()),
                Some(LiteralType::Bool(v)) => Value::Boolean(*v),
                Some(LiteralType::Nil) => Value::Nil,
                None => Value::Nil,
            },
        )
    }
}

/// Evaluates `expr` and gives what is to be shown: the value, or the report of
/// the runtime error.
pub fn interpret<F: Fn(TokenType, Number, Number) -> Number>(expr: Expr, arithmetic: &F) -> (shown:
    Result<Value, String>)
    requires
        computes(arithmetic),
    ensures
        match shown {
            Ok(value) => evaluates(expr@, arithmetic, Ok(value@)),
            Err(text) => exists|e: RuntimeErrorView|
                evaluates(expr@, arithmetic, Err(e)) && text@ == #[trigger] runtime_report(e),
        },
        forall|m: spec_fn(TokenType, Number, Number) -> Number| #[trigger]
            models_arithmetic(arithmetic, m) ==> match interpreted(expr@, m) {
                Ok(v) => shown is Ok && shown->Ok_0@ == v,
                Err(text) => shown is Err && shown->Err_0@ == text,
            },
{
    match expr.eval(arithmetic) {
        Ok(value) => Ok(value),
        Err(e) => {
            let text = e.report();
            assert(text@ == runtime_report(e@));
            Err(text)
        },
    }
}

} // verus!
