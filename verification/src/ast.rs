//! The syntax tree: values, expressions and statements, with their
//! mathematical views and their textual forms.
use crate::number::{is_renderer, render_number, rendered};
use crate::scanner::{kind_name, TokenType};
use vstd::prelude::*;
use vstd::string::*;

verus! {

// ---------------------------------------------------------------------------
// Value
// ---------------------------------------------------------------------------
/// A runtime value. A number is held as its binary64 bit pattern.
#[derive(Debug, Clone, PartialEq)]
pub enum Value {
    Number(u64),
    String(String),
    Boolean(bool),
    Nil,
}

pub ghost enum ValueView {
    Number(u64),
    String(Seq<char>),
    Boolean(bool),
    Nil,
}

impl View for Value {
    type V = ValueView;

    open spec fn view(&self) -> ValueView {
        match self {
            Value::Number(bits) => ValueView::Number(*bits),
            Value::String(text) => ValueView::String(text@),
            Value::Boolean(b) => ValueView::Boolean(*b),
            Value::Nil => ValueView::Nil,
        }
    }
}

pub open spec fn boolean_text(b: bool) -> Seq<char> {
    if b {
        "true"@
    } else {
        "false"@
    }
}

/// The plain form of a value, as `print` writes it.
pub open spec fn display_text(value: ValueView, number: spec_fn(u64, bool) -> Seq<char>) -> Seq<
    char,
> {
    match value {
        ValueView::Number(bits) => number(bits, false),
        ValueView::String(text) => text,
        ValueView::Boolean(b) => boolean_text(b),
        ValueView::Nil => "nil"@,
    }
}

/// The tagged form of a value, as messages show it: `Number(2.00)`,
/// `String(Hello)`, `Boolean(true)`, `nil`.
pub open spec fn debug_text(value: ValueView, number: spec_fn(u64, bool) -> Seq<char>) -> Seq<
    char,
> {
    match value {
        ValueView::Number(bits) => "Number("@ + number(bits, true) + ")"@,
        ValueView::String(text) => "String("@ + text + ")"@,
        ValueView::Boolean(b) => "Boolean("@ + boolean_text(b) + ")"@,
        ValueView::Nil => "nil"@,
    }
}

/// The number texts that a renderer gives, as a spec function.
pub open spec fn number_text<R: Fn(u64, bool) -> String>(render: R) -> spec_fn(u64, bool) -> Seq<
    char,
> {
    |bits: u64, fixed: bool| rendered(render, bits, fixed)
}

/// A stand-in for the number texts where no number can occur.
pub open spec fn no_number() -> spec_fn(u64, bool) -> Seq<char> {
    |bits: u64, fixed: bool| Seq::<char>::empty()
}

pub open spec fn double_expected_message(value: ValueView) -> Seq<char> {
    "Double expected - found "@ + debug_text(value, no_number()) + " instead"@
}

#[derive(Debug, Clone)]
pub struct ValueError {
    pub message: String,
    pub current_value: String,
}

fn boolean_name(b: bool) -> (text: &'static str)
    ensures
        text@ == boolean_text(b),
{
    if b {
        "true"
    } else {
        "false"
    }
}

fn wrapped(tag: &str, inner: &str) -> (text: String)
    ensures
        text@ == tag@ + inner@ + ")"@,
{
    let mut text = String::from_str(tag);
    text.append(inner);
    text.append(")");
    text
}

impl Value {
    /// The bit pattern of a number; for any other value an error that shows
    /// the value found.
    pub fn as_number(&self) -> (result: Result<u64, ValueError>)
        ensures
            match self@ {
                ValueView::Number(bits) => result == Ok::<u64, ValueError>(bits),
                other => result matches Err(error) && error.message@ == double_expected_message(
                    other,
                ) && error.current_value@ == debug_text(other, no_number()),
            },
    {
        let current_value = match self {
            Value::Number(bits) => {
                return Ok(*bits);
            },
            Value::String(text) => wrapped("String(", text.as_str()),
            Value::Boolean(b) => wrapped("Boolean(", boolean_name(*b)),
            Value::Nil => String::from_str("nil"),
        };
        let mut message = String::from_str("Double expected - found ");
        message.append(current_value.as_str());
        message.append(" instead");
        Err(ValueError { message, current_value })
    }

    pub fn as_boolean(&self) -> (result: Option<bool>)
        ensures
            result == match self@ {
                ValueView::Boolean(b) => Some(b),
                _ => None,
            },
    {
        match self {
            Value::Boolean(b) => Some(*b),
            _ => None,
        }
    }

    pub fn as_string(&self) -> (result: Option<&String>)
        ensures
            match self@ {
                ValueView::String(text) => result matches Some(found) && found@ == text,
                _ => result is None,
            },
    {
        match self {
            Value::String(s) => Some(s),
            _ => None,
        }
    }

    /// The plain form of the value.
    pub fn display<R: Fn(u64, bool) -> String>(&self, render: &R) -> (text: String)
        requires
            is_renderer(*render),
        ensures
            text@ == display_text(self@, number_text(*render)),
    {
        match self {
            Value::Number(bits) => render_number(render, *bits, false),
            Value::String(s) => s.clone(),
            Value::Boolean(b) => String::from_str(boolean_name(*b)),
            Value::Nil => String::from_str("nil"),
        }
    }

    /// The tagged form of the value.
    pub fn debug<R: Fn(u64, bool) -> String>(&self, render: &R) -> (text: String)
        requires
            is_renderer(*render),
        ensures
            text@ == debug_text(self@, number_text(*render)),
    {
        match self {
            Value::Number(bits) => {
                let digits = render_number(render, *bits, true);
                wrapped("Number(", digits.as_str())
            },
            Value::String(s) => wrapped("String(", s.as_str()),
            Value::Boolean(b) => wrapped("Boolean(", boolean_name(*b)),
            Value::Nil => String::from_str("nil"),
        }
    }

    /// A copy of the value.
    pub fn duplicate(&self) -> (copy: Value)
        ensures
            copy@ == self@,
    {
        match self {
            Value::Number(bits) => Value::Number(*bits),
            Value::String(s) => Value::String(s.clone()),
            Value::Boolean(b) => Value::Boolean(*b),
            Value::Nil => Value::Nil,
        }
    }
}

// ---------------------------------------------------------------------------
// Expression
// ---------------------------------------------------------------------------
/// An expression tree; every node owns its children.
#[derive(Debug, PartialEq)]
pub enum Expression {
    Literal(Value),
    Binary(Box<Expression>, TokenType, Box<Expression>),
    Unary(TokenType, Box<Expression>),
    Grouping(Box<Expression>),
}

pub ghost enum ExpressionView {
    Literal(ValueView),
    Binary(Box<ExpressionView>, TokenType, Box<ExpressionView>),
    Unary(TokenType, Box<ExpressionView>),
    Grouping(Box<ExpressionView>),
}

impl View for Expression {
    type V = ExpressionView;

    open spec fn view(&self) -> ExpressionView
        decreases self,
    {
        match self {
            Expression::Literal(value) => ExpressionView::Literal(value@),
            Expression::Binary(left, operator, right) => ExpressionView::Binary(
                Box::new((**left)@),
                *operator,
                Box::new((**right)@),
            ),
            Expression::Unary(operator, operand) => ExpressionView::Unary(
                *operator,
                Box::new((**operand)@),
            ),
            Expression::Grouping(inner) => ExpressionView::Grouping(Box::new((**inner)@)),
        }
    }
}

/// The tagged form of an expression, as in
/// `Binary(Literal(Number(1.00)), Plus, Literal(Number(2.00)))`.
pub open spec fn expression_text(
    expression: ExpressionView,
    number: spec_fn(u64, bool) -> Seq<char>,
) -> Seq<char>
    decreases expression,
{
    match expression {
        ExpressionView::Literal(value) => "Literal("@ + debug_text(value, number) + ")"@,
        ExpressionView::Binary(left, operator, right) => "Binary("@ + expression_text(
            *left,
            number,
        ) + ", "@ + kind_name(operator) + ", "@ + expression_text(*right, number) + ")"@,
        ExpressionView::Unary(operator, operand) => "Unary("@ + kind_name(operator) + ", "@
            + expression_text(*operand, number) + ")"@,
        ExpressionView::Grouping(inner) => "Grouping("@ + expression_text(*inner, number) + ")"@,
    }
}

impl Expression {
    /// The tagged form of the expression.
    pub fn debug<R: Fn(u64, bool) -> String>(&self, render: &R) -> (text: String)
        requires
            is_renderer(*render),
        ensures
            text@ == expression_text(self@, number_text(*render)),
        decreases self,
    {
        match self {
            Expression::Literal(value) => wrapped("Literal(", value.debug(render).as_str()),
            Expression::Binary(left, operator, right) => {
                let mut text = String::from_str("Binary(");
                text.append(left.debug(render).as_str());
                text.append(", ");
                text.append(operator.name());
                text.append(", ");
                text.append(right.debug(render).as_str());
                text.append(")");
                text
            },
            Expression::Unary(operator, operand) => {
                let mut text = String::from_str("Unary(");
                text.append(operator.name());
                text.append(", ");
                text.append(operand.debug(render).as_str());
                text.append(")");
                text
            },
            Expression::Grouping(inner) => wrapped("Grouping(", inner.debug(render).as_str()),
        }
    }
}

// ---------------------------------------------------------------------------
// Statement
// ---------------------------------------------------------------------------
#[derive(Debug, PartialEq)]
pub enum Statement {
    ExpressionStmt(Expression),
    PrintStmt(Expression),
}

pub ghost enum StatementView {
    ExpressionStmt(ExpressionView),
    PrintStmt(ExpressionView),
}

impl View for Statement {
    type V = StatementView;

    open spec fn view(&self) -> StatementView {
        match self {
            Statement::ExpressionStmt(expression) => StatementView::ExpressionStmt(expression@),
            Statement::PrintStmt(expression) => StatementView::PrintStmt(expression@),
        }
    }
}

pub open spec fn statement_views(statements: Seq<Statement>) -> Seq<StatementView> {
    statements.map_values(|s: Statement| s@)
}

} // verus!
