//! The tree-walking evaluator.
//!
//! `value_of` says what an expression evaluates to; `Interpreter::evaluate`
//! is proved to compute it, and statement execution is proved to hand the
//! console exactly the texts that `outputs` lists.
use crate::ast::{
    debug_text, display_text, no_number, number_text, Expression, ExpressionView, Statement,
    StatementView, Value, ValueError, ValueView,
};
use crate::number::{
    compute, computed, equal, is_arithmetic, is_renderer, less, less_or_equal, negate, negated,
    number_eq, number_le, number_lt, Operation,
};
use crate::scanner::{kind_name, TokenType};
use vstd::prelude::*;
use vstd::string::*;

verus! {

// ---------------------------------------------------------------------------
// Errors
// ---------------------------------------------------------------------------
/// A runtime type error, carrying its message.
#[derive(Debug, Clone)]
pub struct InterpreterError {
    pub message: String,
}

impl View for InterpreterError {
    type V = Seq<char>;

    open spec fn view(&self) -> Seq<char> {
        self.message@
    }
}

impl From<ValueError> for InterpreterError {
    /// The interpreter's error for a failed conversion of a value: it keeps
    /// the message.
    fn from(error: ValueError) -> (result: Self) {
        InterpreterError { message: error.message }
    }
}

impl vstd::std_specs::convert::FromSpecImpl<ValueError> for InterpreterError {
    open spec fn obeys_from_spec() -> bool {
        true
    }

    open spec fn from_spec(error: ValueError) -> Self {
        InterpreterError { message: error.message }
    }
}

impl InterpreterError {
    /// The message, as a new string.
    pub fn to_string(&self) -> (text: String)
        ensures
            text@ == self@,
    {
        self.message.clone()
    }
}

pub type EvaluationResult = Result<Value, InterpreterError>;

pub open spec fn result_view(result: EvaluationResult) -> Result<ValueView, Seq<char>> {
    match result {
        Ok(value) => Ok(value@),
        Err(error) => Err(error@),
    }
}

// ---------------------------------------------------------------------------
// What evaluation means
// ---------------------------------------------------------------------------
/// `Nil` and `false` are false, and so is the empty string; every other
/// value, each number among them, is true.
pub open spec fn truthy(value: ValueView) -> bool {
    match value {
        ValueView::Nil => false,
        ValueView::Boolean(b) => b,
        ValueView::String(text) => text.len() > 0,
        ValueView::Number(_) => true,
    }
}

/// Equality within one variant; values of two variants are never equal.
pub open spec fn values_equal(left: ValueView, right: ValueView) -> bool {
    match (left, right) {
        (ValueView::Nil, ValueView::Nil) => true,
        (ValueView::Boolean(a), ValueView::Boolean(b)) => a == b,
        (ValueView::Number(a), ValueView::Number(b)) => number_eq(a, b),
        (ValueView::String(a), ValueView::String(b)) => a == b,
        _ => false,
    }
}

pub open spec fn unary_minus_message(value: ValueView) -> Seq<char> {
    "Unary operator - is not defined for "@ + debug_text(value, no_number())
}

pub open spec fn plus_message(
    left: ValueView,
    right: ValueView,
    number: spec_fn(u64, bool) -> Seq<char>,
) -> Seq<char> {
    "Operators must be two numebrs or two strings - found "@ + debug_text(left, number) + " and "@
        + debug_text(right, number) + " instead"@
}

pub open spec fn binary_message(
    operator: TokenType,
    left: ValueView,
    right: ValueView,
    number: spec_fn(u64, bool) -> Seq<char>,
) -> Seq<char> {
    "Binary operator "@ + kind_name(operator) + " is not defined for "@ + debug_text(left, number)
        + " and "@ + debug_text(right, number)
}

/// A unary operator applied to a value.
pub open spec fn unary_value(operator: TokenType, value: ValueView) -> Result<
    ValueView,
    Seq<char>,
> {
    match operator {
        TokenType::Minus => match value {
            ValueView::Number(bits) => Ok(ValueView::Number(negated(bits))),
            other => Err(unary_minus_message(other)),
        },
        TokenType::Bang => Ok(ValueView::Boolean(!truthy(value))),
        _ => Ok(ValueView::Nil),
    }
}

/// The operators that take two numbers and nothing else.
pub open spec fn is_numeric_operator(operator: TokenType) -> bool {
    operator == TokenType::Minus || operator == TokenType::Star || operator == TokenType::Slash
        || operator == TokenType::Greater || operator == TokenType::GreaterEqual || operator
        == TokenType::Less || operator == TokenType::LessEqual
}

/// A numeric operator applied to two numbers.
pub open spec fn numeric_value(
    operator: TokenType,
    a: u64,
    b: u64,
    arithmetic: spec_fn(Operation, u64, u64) -> u64,
) -> ValueView {
    match operator {
        TokenType::Minus => ValueView::Number(arithmetic(Operation::Subtract, a, b)),
        TokenType::Star => ValueView::Number(arithmetic(Operation::Multiply, a, b)),
        TokenType::Slash => ValueView::Number(arithmetic(Operation::Divide, a, b)),
        TokenType::Greater => ValueView::Boolean(number_lt(b, a)),
        TokenType::GreaterEqual => ValueView::Boolean(number_le(b, a)),
        TokenType::Less => ValueView::Boolean(number_lt(a, b)),
        _ => ValueView::Boolean(number_le(a, b)),
    }
}

/// A binary operator applied to two values.
pub open spec fn binary_value(
    operator: TokenType,
    left: ValueView,
    right: ValueView,
    arithmetic: spec_fn(Operation, u64, u64) -> u64,
    number: spec_fn(u64, bool) -> Seq<char>,
) -> Result<ValueView, Seq<char>> {
    if operator == TokenType::Plus {
        match (left, right) {
            (ValueView::Number(a), ValueView::Number(b)) => Ok(
                ValueView::Number(arithmetic(Operation::Add, a, b)),
            ),
            (ValueView::String(a), ValueView::String(b)) => Ok(ValueView::String(a + b)),
            _ => Err(plus_message(left, right, number)),
        }
    } else if is_numeric_operator(operator) {
        match (left, right) {
            (ValueView::Number(a), ValueView::Number(b)) => Ok(
                numeric_value(operator, a, b, arithmetic),
            ),
            _ => Err(binary_message(operator, left, right, number)),
        }
    } else if operator == TokenType::EqualEqual {
        Ok(ValueView::Boolean(values_equal(left, right)))
    } else if operator == TokenType::BangEqual {
        Ok(ValueView::Boolean(!values_equal(left, right)))
    } else {
        Ok(ValueView::Nil)
    }
}

/// The value of an expression, or the message of the first failure met
/// when the operands are evaluated from left to right.
pub open spec fn value_of(
    expression: ExpressionView,
    arithmetic: spec_fn(Operation, u64, u64) -> u64,
    number: spec_fn(u64, bool) -> Seq<char>,
) -> Result<ValueView, Seq<char>>
    decreases expression,
{
    match expression {
        ExpressionView::Literal(value) => Ok(value),
        ExpressionView::Grouping(inner) => value_of(*inner, arithmetic, number),
        ExpressionView::Unary(operator, operand) => match value_of(*operand, arithmetic, number) {
            Ok(value) => unary_value(operator, value),
            Err(message) => Err(message),
        },
        ExpressionView::Binary(left, operator, right) => match value_of(
            *left,
            arithmetic,
            number,
        ) {
            Ok(left_value) => match value_of(*right, arithmetic, number) {
                Ok(right_value) => binary_value(
                    operator,
                    left_value,
                    right_value,
                    arithmetic,
                    number,
                ),
                Err(message) => Err(message),
            },
            Err(message) => Err(message),
        },
    }
}

pub open spec fn error_line(message: Seq<char>) -> Seq<char> {
    "ERROR: "@ + message
}

/// What printing an expression writes: its value's plain form, or the error
/// line.
pub open spec fn report(
    outcome: Result<ValueView, Seq<char>>,
    number: spec_fn(u64, bool) -> Seq<char>,
) -> Seq<char> {
    match outcome {
        Ok(value) => display_text(value, number),
        Err(message) => error_line(message),
    }
}

/// What interpreting a lone expression writes: its value's tagged form, or
/// the error line.
pub open spec fn described(
    outcome: Result<ValueView, Seq<char>>,
    number: spec_fn(u64, bool) -> Seq<char>,
) -> Seq<char> {
    match outcome {
        Ok(value) => debug_text(value, number),
        Err(message) => error_line(message),
    }
}

/// What a statement writes, if anything: `print` writes the value, and any
/// failing statement writes its error line.
pub open spec fn statement_output(
    statement: StatementView,
    arithmetic: spec_fn(Operation, u64, u64) -> u64,
    number: spec_fn(u64, bool) -> Seq<char>,
) -> Option<Seq<char>> {
    match statement {
        StatementView::PrintStmt(expression) => Some(
            report(value_of(expression, arithmetic, number), number),
        ),
        StatementView::ExpressionStmt(expression) => match value_of(
            expression,
            arithmetic,
            number,
        ) {
            Ok(_) => None,
            Err(message) => Some(error_line(message)),
        },
    }
}

/// The texts that a list of statements writes, in order.
pub open spec fn outputs(
    statements: Seq<StatementView>,
    arithmetic: spec_fn(Operation, u64, u64) -> u64,
    number: spec_fn(u64, bool) -> Seq<char>,
) -> Seq<Seq<char>>
    decreases statements.len(),
{
    if statements.len() == 0 {
        Seq::empty()
    } else {
        let before = outputs(statements.drop_last(), arithmetic, number);
        match statement_output(statements.last(), arithmetic, number) {
            Some(text) => before.push(text),
            None => before,
        }
    }
}

// ---------------------------------------------------------------------------
// The console
// ---------------------------------------------------------------------------
/// The sink that results and errors are written to: a text written is a
/// text received, after all that were received before.
pub trait Console {
    /// Every text received so far, in order.
    spec fn received(&self) -> Seq<Seq<char>>;

    fn write(&mut self, value: &str)
        ensures
            final(self).received() == old(self).received().push(value@),
    ;
}

/// A console that keeps what is written to it.
pub struct Transcript {
    pub entries: Vec<String>,
}

impl Transcript {
    pub fn new() -> (transcript: Transcript)
        ensures
            transcript.received() == Seq::<Seq<char>>::empty(),
    {
        let transcript = Transcript { entries: Vec::new() };
        assert(transcript.received() =~= Seq::<Seq<char>>::empty());
        transcript
    }

    /// Everything written, joined without separators.
    pub fn contents(&self) -> (text: String)
        ensures
            text@ == self.received().flatten(),
    {
        let mut text = String::new();
        let mut i: usize = 0;
        assert(self.received().take(0) =~= Seq::<Seq<char>>::empty());
        while i < self.entries.len()
            invariant
                i <= self.entries.len(),
                text@ == self.received().take(i as int).flatten(),
            decreases self.entries.len() - i,
        {
            proof {
                let done = self.received().take(i as int);
                let next = self.received().take(i + 1);
                assert(next =~= done.push(self.entries[i as int]@));
                done.lemma_flatten_push(self.entries[i as int]@);
            }
            text.append(self.entries[i].as_str());
            i += 1;
        }
        assert(self.received().take(i as int) =~= self.received());
        text
    }
}

impl Console for Transcript {
    open spec fn received(&self) -> Seq<Seq<char>> {
        self.entries@.map_values(|entry: String| entry@)
    }

    fn write(&mut self, value: &str) {
        self.entries.push(String::from_str(value));
        assert(self.received() =~= old(self).received().push(value@));
    }
}

// ---------------------------------------------------------------------------
// The interpreter
// ---------------------------------------------------------------------------
/// The arithmetic that a function on bit patterns gives, as a spec function.
pub open spec fn arithmetic_of<A: Fn(Operation, u64, u64) -> u64>(arithmetic: A) -> spec_fn(
    Operation,
    u64,
    u64,
) -> u64 {
    |op: Operation, a: u64, b: u64| computed(arithmetic, op, a, b)
}

/// Evaluates expressions and executes statements, writing to its console.
/// Arithmetic on numbers and their rendering are the two functions it is
/// made with.
pub struct Interpreter<C, A, R> {
    console: C,
    arithmetic: A,
    render: R,
}

pub fn is_truthy(value: &Value) -> (r: bool)
    ensures
        r == truthy(value@),
{
    match value {
        Value::Nil => false,
        Value::Boolean(b) => *b,
        Value::String(s) => !s.as_str().is_empty(),
        _ => true,
    }
}

pub fn is_equal(left: &Value, right: &Value) -> (r: bool)
    ensures
        r == values_equal(left@, right@),
{
    match left {
        Value::Nil => match right {
            Value::Nil => true,
            _ => false,
        },
        Value::Boolean(a) => match right {
            Value::Boolean(b) => *a == *b,
            _ => false,
        },
        Value::Number(a) => match right {
            Value::Number(b) => equal(*a, *b),
            _ => false,
        },
        Value::String(a) => match right {
            Value::String(b) => *a == *b,
            _ => false,
        },
    }
}

/// The two numbers of a numeric operator's operands, or the error that names
/// the operator and both values.
pub fn get_number_operands<R: Fn(u64, bool) -> String>(
    operator: TokenType,
    left: &Value,
    right: &Value,
    render: &R,
) -> (result: Result<(u64, u64), InterpreterError>)
    requires
        is_renderer(*render),
    ensures
        match (left@, right@) {
            (ValueView::Number(a), ValueView::Number(b)) => result == Ok::<
                (u64, u64),
                InterpreterError,
            >((a, b)),
            _ => result matches Err(error) && error@ == binary_message(
                operator,
                left@,
                right@,
                number_text(*render),
            ),
        },
{
    match left {
        Value::Number(a) => match right {
            Value::Number(b) => {
                return Ok((*a, *b));
            },
            _ => {},
        },
        _ => {},
    }
    let mut message = String::from_str("Binary operator ");
    message.append(operator.name());
    message.append(" is not defined for ");
    message.append(left.debug(render).as_str());
    message.append(" and ");
    message.append(right.debug(render).as_str());
    Err(InterpreterError { message })
}

fn plus_error<R: Fn(u64, bool) -> String>(left: &Value, right: &Value, render: &R) -> (error:
    InterpreterError)
    requires
        is_renderer(*render),
    ensures
        error@ == plus_message(left@, right@, number_text(*render)),
{
    let mut message = String::from_str("Operators must be two numebrs or two strings - found ");
    message.append(left.debug(render).as_str());
    message.append(" and ");
    message.append(right.debug(render).as_str());
    message.append(" instead");
    InterpreterError { message }
}

fn error_text(error: &InterpreterError) -> (text: String)
    ensures
        text@ == error_line(error@),
{
    let mut text = String::from_str("ERROR: ");
    text.append(error.message.as_str());
    text
}

impl<C: Console, A: Fn(Operation, u64, u64) -> u64, R: Fn(u64, bool) -> String> Interpreter<
    C,
    A,
    R,
> {
    /// Both functions accept every argument and are functions of their
    /// arguments.
    pub closed spec fn wf(&self) -> bool {
        is_arithmetic(self.arithmetic) && is_renderer(self.render)
    }

    /// The arithmetic in use.
    pub closed spec fn operations(&self) -> spec_fn(Operation, u64, u64) -> u64 {
        arithmetic_of(self.arithmetic)
    }

    /// The number texts in use.
    pub closed spec fn numbers(&self) -> spec_fn(u64, bool) -> Seq<char> {
        number_text(self.render)
    }

    /// The console.
    pub closed spec fn sink(&self) -> C {
        self.console
    }

    /// The value of an expression under this interpreter.
    pub open spec fn value(&self, expression: ExpressionView) -> Result<ValueView, Seq<char>> {
        value_of(expression, self.operations(), self.numbers())
    }

    pub fn new(console: C, arithmetic: A, render: R) -> (interpreter: Self)
        requires
            is_arithmetic(arithmetic),
            is_renderer(render),
        ensures
            interpreter.wf(),
            interpreter.sink() == console,
            interpreter.operations() == arithmetic_of(arithmetic),
            interpreter.numbers() == number_text(render),
    {
        Interpreter { console, arithmetic, render }
    }

    /// The console, to look at.
    pub fn console(&self) -> (console: &C)
        ensures
            *console == self.sink(),
    {
        &self.console
    }

    /// The console, given back.
    pub fn into_console(self) -> (console: C)
        ensures
            console == self.sink(),
    {
        self.console
    }

    /// Hands `text` to the console.
    fn emit(&mut self, text: &str)
        requires
            old(self).wf(),
        ensures
            final(self).wf(),
            final(self).operations() == old(self).operations(),
            final(self).numbers() == old(self).numbers(),
            final(self).sink().received() == old(self).sink().received().push(text@),
    {
        self.console.write(text);
    }

    /// A unary operator applied to an evaluated operand.
    pub fn apply_unary(&self, operator: TokenType, value: Value) -> (result: EvaluationResult)
        requires
            self.wf(),
        ensures
            result_view(result) == unary_value(operator, value@),
    {
        match operator {
            TokenType::Minus => match value.as_number() {
                Ok(bits) => Ok(Value::Number(negate(bits))),
                Err(e) => {
                    let mut message = String::from_str("Unary operator - is not defined for ");
                    message.append(e.current_value.as_str());
                    Err(InterpreterError { message })
                },
            },
            TokenType::Bang => Ok(Value::Boolean(!is_truthy(&value))),
            _ => Ok(Value::Nil),
        }
    }

    /// A binary operator applied to two evaluated operands.
    pub fn apply_binary(&self, operator: TokenType, left: Value, right: Value) -> (result:
        EvaluationResult)
        requires
            self.wf(),
        ensures
            result_view(result) == binary_value(
                operator,
                left@,
                right@,
                self.operations(),
                self.numbers(),
            ),
    {
        match operator {
            TokenType::Plus => {
                match &left {
                    Value::Number(a) => match &right {
                        Value::Number(b) => {
                            return Ok(
                                Value::Number(compute(&self.arithmetic, Operation::Add, *a, *b)),
                            );
                        },
                        _ => {},
                    },
                    Value::String(a) => match &right {
                        Value::String(b) => {
                            let mut text = a.clone();
                            text.append(b.as_str());
                            return Ok(Value::String(text));
                        },
                        _ => {},
                    },
                    _ => {},
                }
                Err(plus_error(&left, &right, &self.render))
            },
            TokenType::Minus => {
                let (a, b) = get_number_operands(operator, &left, &right, &self.render)?;
                Ok(Value::Number(compute(&self.arithmetic, Operation::Subtract, a, b)))
            },
            TokenType::Star => {
                let (a, b) = get_number_operands(operator, &left, &right, &self.render)?;
                Ok(Value::Number(compute(&self.arithmetic, Operation::Multiply, a, b)))
            },
            TokenType::Slash => {
                let (a, b) = get_number_operands(operator, &left, &right, &self.render)?;
                Ok(Value::Number(compute(&self.arithmetic, Operation::Divide, a, b)))
            },
            TokenType::Greater => {
                let (a, b) = get_number_operands(operator, &left, &right, &self.render)?;
                Ok(Value::Boolean(less(b, a)))
            },
            TokenType::Less => {
                let (a, b) = get_number_operands(operator, &left, &right, &self.render)?;
                Ok(Value::Boolean(less(a, b)))
            },
            TokenType::GreaterEqual => {
                let (a, b) = get_number_operands(operator, &left, &right, &self.render)?;
                Ok(Value::Boolean(less_or_equal(b, a)))
            },
            TokenType::LessEqual => {
                let (a, b) = get_number_operands(operator, &left, &right, &self.render)?;
                Ok(Value::Boolean(less_or_equal(a, b)))
            },
            TokenType::EqualEqual => Ok(Value::Boolean(is_equal(&left, &right))),
            TokenType::BangEqual => Ok(Value::Boolean(!is_equal(&left, &right))),
            _ => Ok(Value::Nil),
        }
    }

    /// The value of `expression`: literals stand for themselves, a grouping
    /// for what it holds, and operators are applied to the values of their
    /// operands. The first failure ends the evaluation.
    pub fn evaluate(&self, expression: &Expression) -> (result: EvaluationResult)
        requires
            self.wf(),
        ensures
            result_view(result) == self.value(expression@),
        decreases expression,
    {
        match expression {
            Expression::Literal(value) => Ok(value.duplicate()),
            Expression::Grouping(inner) => self.evaluate(inner),
            Expression::Unary(operator, operand) => {
                match self.evaluate(operand) {
                    Ok(value) => self.apply_unary(*operator, value),
                    Err(e) => Err(e),
                }
            },
            Expression::Binary(left, operator, right) => {
                match self.evaluate(left) {
                    Ok(left_value) => match self.evaluate(right) {
                        Ok(right_value) => self.apply_binary(*operator, left_value, right_value),
                        Err(e) => Err(e),
                    },
                    Err(e) => Err(e),
                }
            },
        }
    }

    /// Evaluates `expression` and writes its value in the tagged form, or the
    /// error line.
    pub fn interpret(&mut self, expression: &Expression)
        requires
            old(self).wf(),
        ensures
            final(self).wf(),
            final(self).operations() == old(self).operations(),
            final(self).numbers() == old(self).numbers(),
            final(self).sink().received() == old(self).sink().received().push(
                described(old(self).value(expression@), old(self).numbers()),
            ),
    {
        match self.evaluate(expression) {
            Ok(value) => {
                let text = value.debug(&self.render);
                self.emit(text.as_str());
            },
            Err(e) => {
                let text = error_text(&e);
                self.emit(text.as_str());
            },
        }
    }

    /// Evaluates `expression` and writes its value in the plain form, or the
    /// error line.
    pub fn print(&mut self, expression: &Expression)
        requires
            old(self).wf(),
        ensures
            final(self).wf(),
            final(self).operations() == old(self).operations(),
            final(self).numbers() == old(self).numbers(),
            final(self).sink().received() == old(self).sink().received().push(
                report(old(self).value(expression@), old(self).numbers()),
            ),
    {
        match self.evaluate(expression) {
            Ok(value) => {
                let text = value.display(&self.render);
                self.emit(text.as_str());
            },
            Err(e) => {
                let text = error_text(&e);
                self.emit(text.as_str());
            },
        }
    }

    /// Executes one statement.
    pub fn execute(&mut self, statement: &Statement)
        requires
            old(self).wf(),
        ensures
            final(self).wf(),
            final(self).operations() == old(self).operations(),
            final(self).numbers() == old(self).numbers(),
            final(self).sink().received() == match statement_output(
                statement@,
                old(self).operations(),
                old(self).numbers(),
            ) {
                Some(text) => old(self).sink().received().push(text),
                None => old(self).sink().received(),
            },
    {
        match statement {
            Statement::PrintStmt(expression) => self.print(expression),
            Statement::ExpressionStmt(expression) => {
                match self.evaluate(expression) {
                    Ok(_) => {},
                    Err(e) => {
                        let text = error_text(&e);
                        self.emit(text.as_str());
                    },
                }
            },
        }
    }

    /// Executes the statements in order. A statement that fails writes its
    /// error line and the next one runs all the same.
    pub fn interpret_statements(&mut self, statements: &Vec<Statement>)
        requires
            old(self).wf(),
        ensures
            final(self).wf(),
            final(self).operations() == old(self).operations(),
            final(self).numbers() == old(self).numbers(),
            final(self).sink().received() == old(self).sink().received() + outputs(
                crate::ast::statement_views(statements@),
                old(self).operations(),
                old(self).numbers(),
            ),
    {
        let ghost views = crate::ast::statement_views(statements@);
        let ghost before = self.sink().received();
        let mut i: usize = 0;
        proof {
            assert(views.take(0) =~= Seq::<StatementView>::empty());
            assert(before + Seq::<Seq<char>>::empty() =~= before);
        }
        while i < statements.len()
            invariant
                i <= statements.len(),
                self.wf(),
                self.operations() == old(self).operations(),
                self.numbers() == old(self).numbers(),
                views == crate::ast::statement_views(statements@),
                before == old(self).sink().received(),
                self.sink().received() == before + outputs(
                    views.take(i as int),
                    self.operations(),
                    self.numbers(),
                ),
            decreases statements.len() - i,
        {
            proof {
                let next = views.take(i + 1);
                assert(next.drop_last() =~= views.take(i as int));
                assert(next.last() == statements[i as int]@);
                let so_far = outputs(views.take(i as int), self.operations(), self.numbers());
                match statement_output(next.last(), self.operations(), self.numbers()) {
                    Some(text) => {
                        assert((before + so_far).push(text) =~= before + so_far.push(text));
                    },
                    None => {},
                }
            }
            self.execute(&statements[i]);
            i += 1;
        }
        proof {
            assert(views.take(i as int) =~= views);
        }
    }
}

/// Evaluation is a function of the expression: two evaluations of one
/// expression by one interpreter give the same value, or the same error.
pub proof fn lemma_evaluation_is_pure<
    C: Console,
    A: Fn(Operation, u64, u64) -> u64,
    R: Fn(u64, bool) -> String,
>(
    interpreter: Interpreter<C, A, R>,
    expression: Expression,
    first: EvaluationResult,
    second: EvaluationResult,
)
    requires
        result_view(first) == interpreter.value(expression@),
        result_view(second) == interpreter.value(expression@),
    ensures
        result_view(first) == result_view(second),
{
}

/// Statements are executed one by one: what two lists of statements write,
/// one after the other, is what the first writes and then what the second
/// writes, whether or not a statement of the first fails.
pub proof fn lemma_outputs_concat(
    first: Seq<StatementView>,
    second: Seq<StatementView>,
    arithmetic: spec_fn(Operation, u64, u64) -> u64,
    number: spec_fn(u64, bool) -> Seq<char>,
)
    ensures
        outputs(first + second, arithmetic, number) == outputs(first, arithmetic, number) + outputs(
            second,
            arithmetic,
            number,
        ),
    decreases second.len(),
{
    let whole = first + second;
    if second.len() == 0 {
        assert(whole =~= first);
        assert(outputs(first, arithmetic, number) + Seq::<Seq<char>>::empty() =~= outputs(
            first,
            arithmetic,
            number,
        ));
    } else {
        assert(whole.drop_last() =~= first + second.drop_last());
        assert(whole.last() == second.last());
        lemma_outputs_concat(first, second.drop_last(), arithmetic, number);
        let before = outputs(first, arithmetic, number);
        let middle = outputs(second.drop_last(), arithmetic, number);
        match statement_output(second.last(), arithmetic, number) {
            Some(text) => {
                assert((before + middle).push(text) =~= before + middle.push(text));
            },
            None => {},
        }
    }
}

/// Equality and logical negation accept every value; a numeric operator
/// gives a number or a boolean, by its kind, and fails exactly when an
/// operand is no number.
pub proof fn lemma_operator_results(
    operator: TokenType,
    left: ValueView,
    right: ValueView,
    arithmetic: spec_fn(Operation, u64, u64) -> u64,
    number: spec_fn(u64, bool) -> Seq<char>,
)
    ensures
        binary_value(TokenType::EqualEqual, left, right, arithmetic, number) == Ok::<
            ValueView,
            Seq<char>,
        >(ValueView::Boolean(values_equal(left, right))),
        binary_value(TokenType::BangEqual, left, right, arithmetic, number) == Ok::<
            ValueView,
            Seq<char>,
        >(ValueView::Boolean(!values_equal(left, right))),
        unary_value(TokenType::Bang, left) == Ok::<ValueView, Seq<char>>(
            ValueView::Boolean(!truthy(left)),
        ),
        is_numeric_operator(operator) ==> (binary_value(operator, left, right, arithmetic, number)
            is Ok <==> left is Number && right is Number),
        is_numeric_operator(operator) ==> (binary_value(operator, left, right, arithmetic, number)
            matches Ok(value) ==> (value is Number <==> operator == TokenType::Minus || operator
            == TokenType::Star || operator == TokenType::Slash) && (value is Boolean
            <==> operator == TokenType::Greater || operator == TokenType::GreaterEqual || operator
            == TokenType::Less || operator == TokenType::LessEqual)),
{
}

/// All the statements of the list are `print` statements.
pub open spec fn all_print(statements: Seq<StatementView>) -> bool {
    forall|i: int| 0 <= i < statements.len() ==> #[trigger] statements[i] is PrintStmt
}

/// No statement writes more than one text, and a `print` statement writes
/// exactly one, whether it is the value or the error line: a list of `print`
/// statements writes as many texts as it has statements, the text at each
/// place being what the statement at that place reports.
pub proof fn lemma_one_text_per_print(
    statements: Seq<StatementView>,
    arithmetic: spec_fn(Operation, u64, u64) -> u64,
    number: spec_fn(u64, bool) -> Seq<char>,
)
    ensures
        outputs(statements, arithmetic, number).len() <= statements.len(),
        all_print(statements) ==> {
            &&& outputs(statements, arithmetic, number).len() == statements.len()
            &&& forall|i: int|
                0 <= i < statements.len() ==> #[trigger] outputs(statements, arithmetic, number)[i]
                    == report(value_of(statements[i]->PrintStmt_0, arithmetic, number), number)
        },
    decreases statements.len(),
{
    if statements.len() > 0 {
        let before = statements.drop_last();
        lemma_one_text_per_print(before, arithmetic, number);
        if all_print(statements) {
            assert(all_print(before)) by {
                assert forall|i: int| 0 <= i < before.len() implies #[trigger] before[i]
                    is PrintStmt by {
                    assert(statements[i] is PrintStmt);
                }
            }
            assert(statements.last() is PrintStmt);
            assert forall|i: int| 0 <= i < statements.len() implies #[trigger] outputs(
                statements,
                arithmetic,
                number,
            )[i] == report(value_of(statements[i]->PrintStmt_0, arithmetic, number), number) by {
                if i < before.len() {
                    assert(before[i] == statements[i]);
                    assert(outputs(before, arithmetic, number)[i] == report(
                        value_of(before[i]->PrintStmt_0, arithmetic, number),
                        number,
                    ));
                }
            }
        }
    }
}

/// Negating a string fails, and the message names the operator and shows the
/// string; it is the same message whenever the string is the same.
pub proof fn lemma_minus_on_string(text: Seq<char>)
    ensures
        unary_value(TokenType::Minus, ValueView::String(text)) == Err::<ValueView, Seq<char>>(
            "Unary operator - is not defined for "@ + ("String("@ + text + ")"@),
        ),
{
}

/// Strings are joined by `+`, and two numbers are added by the arithmetic
/// in use.
pub proof fn lemma_plus(
    a: Seq<char>,
    b: Seq<char>,
    x: u64,
    y: u64,
    arithmetic: spec_fn(Operation, u64, u64) -> u64,
    number: spec_fn(u64, bool) -> Seq<char>,
)
    ensures
        binary_value(
            TokenType::Plus,
            ValueView::String(a),
            ValueView::String(b),
            arithmetic,
            number,
        ) == Ok::<ValueView, Seq<char>>(ValueView::String(a + b)),
        binary_value(
            TokenType::Plus,
            ValueView::Number(x),
            ValueView::Number(y),
            arithmetic,
            number,
        ) == Ok::<ValueView, Seq<char>>(ValueView::Number(arithmetic(Operation::Add, x, y))),
        binary_value(
            TokenType::Plus,
            ValueView::Number(x),
            ValueView::String(b),
            arithmetic,
            number,
        ) is Err,
        binary_value(
            TokenType::Plus,
            ValueView::String(a),
            ValueView::Number(y),
            arithmetic,
            number,
        ) is Err,
{
}

/// No value equals a value of another variant, and `Nil` equals `Nil`.
pub proof fn lemma_equality_within_variant(left: ValueView, right: ValueView)
    ensures
        values_equal(ValueView::Nil, ValueView::Nil),
        (left is Number) != (right is Number) ==> !values_equal(left, right),
        (left is String) != (right is String) ==> !values_equal(left, right),
        (left is Boolean) != (right is Boolean) ==> !values_equal(left, right),
        (left is Nil) != (right is Nil) ==> !values_equal(left, right),
{
}

} // verus!
