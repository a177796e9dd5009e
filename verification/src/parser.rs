//! Recursive-descent parser.
//!
//! The grammar, from the loosest binding level to the tightest:
//!
//! ```text
//! statement   := "print" expression ";" | expression ";"
//! expression  := equality
//! equality    := comparison ( ("!=" | "==") comparison )*
//! comparison  := term ( (">" | ">=" | "<" | "<=") term )*
//! term        := factor ( ("+" | "-") factor )*
//! factor      := unary ( ("*" | "/") unary )*
//! unary       := ("-" | "!") unary | primary
//! primary     := NUMBER | STRING | "(" expression ")"
//! ```
//!
//! `parse_level`, `parse_unary`, `parse_primary` and `parse_statements` say
//! what a token sequence parses to; the `Parser` is proved to compute them.
use crate::ast::{
    statement_views, Expression, ExpressionView, Statement, StatementView, Value, ValueView,
};
use crate::scanner::{
    decimal, lemma_tokens_end_with_eof, scan, token_views, Scanner, Token, TokenError, TokenType,
    TokenView,
};
use vstd::prelude::*;
use vstd::string::*;

verus! {

// ---------------------------------------------------------------------------
// Errors
// ---------------------------------------------------------------------------
/// Why parsing stopped, with the line of the token at which it did.
#[derive(Debug, PartialEq, Eq, Copy, Clone, Structural)]
pub enum ParseError {
    /// No expression can start at this token.
    ExpressionExpected { line: i32 },
    /// The closing parenthesis of a grouping is missing.
    UnclosedGrouping { line: i32 },
    /// The `;` that ends a statement is missing.
    UnterminatedStatement { printing: bool, line: i32 },
    /// A number token whose lexeme is no number.
    MalformedNumber { line: i32 },
}

pub open spec fn parse_error_message(error: ParseError) -> Seq<char> {
    match error {
        ParseError::ExpressionExpected { line } => "Expression expected. Line: "@ + decimal(
            line as int,
        ),
        ParseError::UnclosedGrouping { line } => "Expect ')' after expression."@,
        ParseError::UnterminatedStatement { printing, line } => if printing {
            "Expect ';' after value."@
        } else {
            "Expect ';' after expression."@
        },
        ParseError::MalformedNumber { line } => "Malformed number."@,
    }
}

impl ParseError {
    /// The line of the offending token.
    pub fn line(&self) -> (line: i32)
        ensures
            line == match *self {
                ParseError::ExpressionExpected { line } => line,
                ParseError::UnclosedGrouping { line } => line,
                ParseError::UnterminatedStatement { printing, line } => line,
                ParseError::MalformedNumber { line } => line,
            },
    {
        match self {
            ParseError::ExpressionExpected { line } => *line,
            ParseError::UnclosedGrouping { line } => *line,
            ParseError::UnterminatedStatement { printing, line } => *line,
            ParseError::MalformedNumber { line } => *line,
        }
    }

    /// The message of the error.
    pub fn message(&self) -> (text: String)
        ensures
            text@ == parse_error_message(*self),
    {
        match self {
            ParseError::ExpressionExpected { line } => {
                let mut text = String::from_str("Expression expected. Line: ");
                text.append(crate::scanner::line_text(*line).as_str());
                text
            },
            ParseError::UnclosedGrouping { line } => String::from_str(
                "Expect ')' after expression.",
            ),
            ParseError::UnterminatedStatement { printing, line } => if *printing {
                String::from_str("Expect ';' after value.")
            } else {
                String::from_str("Expect ';' after expression.")
            },
            ParseError::MalformedNumber { line } => String::from_str("Malformed number."),
        }
    }
}

// ---------------------------------------------------------------------------
// Number lexemes, as read by the caller's function
// ---------------------------------------------------------------------------
/// `read` may give `r` for a slice that holds `lexeme`.
pub open spec fn reads<P: Fn(&str) -> Option<u64>>(read: P, lexeme: Seq<char>, r: Option<u64>) -> bool {
    exists|s: &str| s@ == lexeme && #[trigger] call_ensures(read, (s,), r)
}

/// The bit pattern that `read` gives for a lexeme, if it reads as a number.
pub open spec fn number_of<P: Fn(&str) -> Option<u64>>(read: P, lexeme: Seq<char>) -> Option<u64> {
    choose|r: Option<u64>| reads(read, lexeme, r)
}

/// `read` accepts every lexeme and its result is a function of the lexeme's
/// characters.
pub open spec fn is_number_reader<P: Fn(&str) -> Option<u64>>(read: P) -> bool {
    &&& forall|s: &str| call_requires(read, (s,))
    &&& forall|s1: &str, s2: &str, r1: Option<u64>, r2: Option<u64>|
        #[trigger] call_ensures(read, (s1,), r1) && #[trigger] call_ensures(read, (s2,), r2)
            && s1@ == s2@ ==> r1 == r2
}

pub open spec fn reader_of<P: Fn(&str) -> Option<u64>>(read: P) -> spec_fn(Seq<char>) -> Option<
    u64,
> {
    |lexeme: Seq<char>| number_of(read, lexeme)
}

// ---------------------------------------------------------------------------
// What parsing means
// ---------------------------------------------------------------------------
/// The kind of the token at `pos`; past the end it is `Eof`.
pub open spec fn kind_at(tokens: Seq<TokenView>, pos: int) -> TokenType {
    if 0 <= pos < tokens.len() {
        tokens[pos].kind
    } else {
        TokenType::Eof
    }
}

pub open spec fn line_at(tokens: Seq<TokenView>, pos: int) -> i32 {
    if 0 <= pos < tokens.len() {
        tokens[pos].line as i32
    } else {
        0
    }
}

/// The operators of each binary level: 0 equality, 1 comparison, 2 term,
/// 3 factor.
pub open spec fn is_level_operator(level: int, kind: TokenType) -> bool {
    if level == 0 {
        kind == TokenType::BangEqual || kind == TokenType::EqualEqual
    } else if level == 1 {
        kind == TokenType::Greater || kind == TokenType::GreaterEqual || kind == TokenType::Less
            || kind == TokenType::LessEqual
    } else if level == 2 {
        kind == TokenType::Minus || kind == TokenType::Plus
    } else if level == 3 {
        kind == TokenType::Slash || kind == TokenType::Star
    } else {
        false
    }
}

pub open spec fn binary(left: ExpressionView, operator: TokenType, right: ExpressionView) -> ExpressionView {
    ExpressionView::Binary(Box::new(left), operator, Box::new(right))
}

/// An expression and the position after it, or the error.
pub type Parsed = Result<(ExpressionView, int), ParseError>;

/// A position reached from `pos` by consuming tokens. Every successful
/// parse ends at such a position (`lemma_level_advances`); the functions of
/// the grammar test it so that their recursion is seen to end.
pub open spec fn follows(tokens: Seq<TokenView>, pos: int, next: int) -> bool {
    pos <= next <= tokens.len()
}

/// `primary := NUMBER | STRING | "(" expression ")"`
pub open spec fn parse_primary(
    tokens: Seq<TokenView>,
    pos: int,
    numbers: spec_fn(Seq<char>) -> Option<u64>,
) -> Parsed
    decreases tokens.len() - pos, 0int,
{
    let kind = kind_at(tokens, pos);
    if kind == TokenType::Number {
        match numbers(tokens[pos].lexeme) {
            Some(bits) => Ok((ExpressionView::Literal(ValueView::Number(bits)), pos + 1)),
            None => Err(ParseError::MalformedNumber { line: line_at(tokens, pos) }),
        }
    } else if kind == TokenType::String {
        Ok((ExpressionView::Literal(ValueView::String(tokens[pos].lexeme)), pos + 1))
    } else if kind == TokenType::LeftParen {
        match parse_level(tokens, pos + 1, 0, numbers) {
            Ok((inner, next)) => if kind_at(tokens, next) == TokenType::RightParen {
                Ok((ExpressionView::Grouping(Box::new(inner)), next + 1))
            } else {
                Err(ParseError::UnclosedGrouping { line: line_at(tokens, next) })
            },
            Err(error) => Err(error),
        }
    } else {
        Err(ParseError::ExpressionExpected { line: line_at(tokens, pos) })
    }
}

/// `unary := ("-" | "!") unary | primary`
pub open spec fn parse_unary(
    tokens: Seq<TokenView>,
    pos: int,
    numbers: spec_fn(Seq<char>) -> Option<u64>,
) -> Parsed
    decreases tokens.len() - pos, 1int,
{
    let kind = kind_at(tokens, pos);
    if kind == TokenType::Minus || kind == TokenType::Bang {
        match parse_unary(tokens, pos + 1, numbers) {
            Ok((operand, next)) => Ok((ExpressionView::Unary(kind, Box::new(operand)), next)),
            Err(error) => Err(error),
        }
    } else {
        parse_primary(tokens, pos, numbers)
    }
}

/// One binary level: an operand of the next level, then any number of
/// operator and operand pairs, folded to the left. Level 4 is `unary`.
pub open spec fn parse_level(
    tokens: Seq<TokenView>,
    pos: int,
    level: int,
    numbers: spec_fn(Seq<char>) -> Option<u64>,
) -> Parsed
    decreases tokens.len() - pos, (if 0 <= level < 4 { 10 - level } else { 2int }),
{
    if level < 0 || level >= 4 {
        parse_unary(tokens, pos, numbers)
    } else {
        match parse_level(tokens, pos, level + 1, numbers) {
            Ok((left, next)) => if follows(tokens, pos, next) {
                parse_tail(tokens, next, level, left, numbers)
            } else {
                Ok((left, next))
            },
            Err(error) => Err(error),
        }
    }
}

/// The operator and operand pairs of a level that follow the operand `left`.
pub open spec fn parse_tail(
    tokens: Seq<TokenView>,
    pos: int,
    level: int,
    left: ExpressionView,
    numbers: spec_fn(Seq<char>) -> Option<u64>,
) -> Parsed
    decreases tokens.len() - pos, 0int,
{
    let operator = kind_at(tokens, pos);
    if 0 <= level < 4 && is_level_operator(level, operator) {
        match parse_level(tokens, pos + 1, level + 1, numbers) {
            Ok((right, next)) => if follows(tokens, pos + 1, next) {
                parse_tail(tokens, next, level, binary(left, operator, right), numbers)
            } else {
                Ok((binary(left, operator, right), next))
            },
            Err(error) => Err(error),
        }
    } else {
        Ok((left, pos))
    }
}

/// `expression := equality`
pub open spec fn parse_expression(
    tokens: Seq<TokenView>,
    pos: int,
    numbers: spec_fn(Seq<char>) -> Option<u64>,
) -> Parsed {
    parse_level(tokens, pos, 0, numbers)
}

/// `statement := "print" expression ";" | expression ";"`
pub open spec fn parse_statement(
    tokens: Seq<TokenView>,
    pos: int,
    numbers: spec_fn(Seq<char>) -> Option<u64>,
) -> Result<(StatementView, int), ParseError> {
    let printing = kind_at(tokens, pos) == TokenType::Print;
    let start = if printing {
        pos + 1
    } else {
        pos
    };
    match parse_expression(tokens, start, numbers) {
        Ok((expression, next)) => if kind_at(tokens, next) == TokenType::Semicolon {
            Ok(
                (
                    if printing {
                        StatementView::PrintStmt(expression)
                    } else {
                        StatementView::ExpressionStmt(expression)
                    },
                    next + 1,
                ),
            )
        } else {
            Err(ParseError::UnterminatedStatement { printing, line: line_at(tokens, next) })
        },
        Err(error) => Err(error),
    }
}

/// The statements from `pos` up to `Eof`, or the first error.
pub open spec fn parse_statements(
    tokens: Seq<TokenView>,
    pos: int,
    numbers: spec_fn(Seq<char>) -> Option<u64>,
) -> Result<Seq<StatementView>, ParseError>
    decreases tokens.len() - pos,
{
    if kind_at(tokens, pos) == TokenType::Eof {
        Ok(Seq::empty())
    } else {
        match parse_statement(tokens, pos, numbers) {
            Ok((statement, next)) => if pos < next <= tokens.len() {
                match parse_statements(tokens, next, numbers) {
                    Ok(rest) => Ok(seq![statement] + rest),
                    Err(error) => Err(error),
                }
            } else {
                Ok(seq![statement])
            },
            Err(error) => Err(error),
        }
    }
}

// ---------------------------------------------------------------------------
// A successful parse moves forward
// ---------------------------------------------------------------------------
/// A successful result ends at a position after `pos` (or, where `strictly`
/// is false, not before it) and within the tokens.
pub open spec fn advances(parsed: Parsed, tokens: Seq<TokenView>, pos: int, strictly: bool) -> bool {
    parsed matches Ok((expression, next)) ==> next <= tokens.len() && if strictly {
        pos < next
    } else {
        pos <= next
    }
}

/// A primary expression consumes at least one token.
pub proof fn lemma_primary_advances(
    tokens: Seq<TokenView>,
    pos: int,
    numbers: spec_fn(Seq<char>) -> Option<u64>,
)
    requires
        0 <= pos <= tokens.len(),
    ensures
        advances(parse_primary(tokens, pos, numbers), tokens, pos, true),
    decreases tokens.len() - pos, 0int,
{
    if kind_at(tokens, pos) == TokenType::LeftParen {
        lemma_level_advances(tokens, pos + 1, 0, numbers);
    }
}

/// A unary expression consumes at least one token.
pub proof fn lemma_unary_advances(
    tokens: Seq<TokenView>,
    pos: int,
    numbers: spec_fn(Seq<char>) -> Option<u64>,
)
    requires
        0 <= pos <= tokens.len(),
    ensures
        advances(parse_unary(tokens, pos, numbers), tokens, pos, true),
    decreases tokens.len() - pos, 1int,
{
    let kind = kind_at(tokens, pos);
    if kind == TokenType::Minus || kind == TokenType::Bang {
        lemma_unary_advances(tokens, pos + 1, numbers);
    } else {
        lemma_primary_advances(tokens, pos, numbers);
    }
}

/// An expression of any level consumes at least one token, so the test
/// `follows` in `parse_level` and `parse_tail` never fails.
pub proof fn lemma_level_advances(
    tokens: Seq<TokenView>,
    pos: int,
    level: int,
    numbers: spec_fn(Seq<char>) -> Option<u64>,
)
    requires
        0 <= pos <= tokens.len(),
    ensures
        advances(parse_level(tokens, pos, level, numbers), tokens, pos, true),
    decreases tokens.len() - pos,
        (if 0 <= level < 4 {
            10 - level
        } else {
            2int
        }),
{
    if level < 0 || level >= 4 {
        lemma_unary_advances(tokens, pos, numbers);
    } else {
        lemma_level_advances(tokens, pos, level + 1, numbers);
        match parse_level(tokens, pos, level + 1, numbers) {
            Ok((left, next)) => {
                lemma_tail_advances(tokens, next, level, left, numbers);
            },
            Err(error) => {},
        }
    }
}

/// The operator and operand pairs after an operand never move backwards.
pub proof fn lemma_tail_advances(
    tokens: Seq<TokenView>,
    pos: int,
    level: int,
    left: ExpressionView,
    numbers: spec_fn(Seq<char>) -> Option<u64>,
)
    requires
        0 <= pos <= tokens.len(),
    ensures
        advances(parse_tail(tokens, pos, level, left, numbers), tokens, pos, false),
    decreases tokens.len() - pos, 0int,
{
    let operator = kind_at(tokens, pos);
    if 0 <= level < 4 && is_level_operator(level, operator) {
        lemma_level_advances(tokens, pos + 1, level + 1, numbers);
        match parse_level(tokens, pos + 1, level + 1, numbers) {
            Ok((right, next)) => {
                lemma_tail_advances(tokens, next, level, binary(left, operator, right), numbers);
            },
            Err(error) => {},
        }
    }
}

/// A statement consumes at least one token, so `parse_statements` reads on
/// to `Eof` or to the first error.
pub proof fn lemma_statement_advances(
    tokens: Seq<TokenView>,
    pos: int,
    numbers: spec_fn(Seq<char>) -> Option<u64>,
)
    requires
        0 <= pos <= tokens.len(),
    ensures
        parse_statement(tokens, pos, numbers) matches Ok((statement, next)) ==> pos < next
            <= tokens.len(),
{
    if kind_at(tokens, pos) == TokenType::Print {
        lemma_level_advances(tokens, pos + 1, 0, numbers);
    } else {
        lemma_level_advances(tokens, pos, 0, numbers);
    }
}

// ---------------------------------------------------------------------------
// A parsed expression spells the tokens it was read from
// ---------------------------------------------------------------------------
/// The kinds of the tokens that an expression is written with, in order.
pub open spec fn kinds_of(expression: ExpressionView) -> Seq<TokenType>
    decreases expression,
{
    match expression {
        ExpressionView::Literal(value) => match value {
            ValueView::Number(bits) => seq![TokenType::Number],
            ValueView::String(text) => seq![TokenType::String],
            ValueView::Boolean(b) => if b {
                seq![TokenType::True]
            } else {
                seq![TokenType::False]
            },
            ValueView::Nil => seq![TokenType::Nil],
        },
        ExpressionView::Binary(left, operator, right) => kinds_of(*left) + seq![operator]
            + kinds_of(*right),
        ExpressionView::Unary(operator, operand) => seq![operator] + kinds_of(*operand),
        ExpressionView::Grouping(inner) => seq![TokenType::LeftParen] + kinds_of(*inner)
            + seq![TokenType::RightParen],
    }
}

/// The kinds of the tokens `from..to`.
pub open spec fn kinds_between(tokens: Seq<TokenView>, from: int, to: int) -> Seq<TokenType> {
    tokens.subrange(from, to).map_values(|token: TokenView| token.kind)
}

/// A successful result holds an expression written with exactly the tokens
/// from `start` to the position reached.
pub open spec fn spells(parsed: Parsed, tokens: Seq<TokenView>, start: int) -> bool {
    parsed matches Ok((expression, next)) ==> start <= next <= tokens.len() && kinds_of(expression)
        == kinds_between(tokens, start, next)
}

proof fn lemma_kinds_join(tokens: Seq<TokenView>, from: int, mid: int, to: int)
    requires
        0 <= from <= mid <= to <= tokens.len(),
    ensures
        kinds_between(tokens, from, to) == kinds_between(tokens, from, mid) + kinds_between(
            tokens,
            mid,
            to,
        ),
        mid < to ==> kinds_between(tokens, mid, mid + 1) == seq![tokens[mid].kind],
{
    assert(kinds_between(tokens, from, to) =~= kinds_between(tokens, from, mid) + kinds_between(
        tokens,
        mid,
        to,
    ));
    if mid < to {
        assert(kinds_between(tokens, mid, mid + 1) =~= seq![tokens[mid].kind]);
    }
}

/// A primary expression is written with the tokens it consumed.
pub proof fn lemma_primary_spells(
    tokens: Seq<TokenView>,
    pos: int,
    numbers: spec_fn(Seq<char>) -> Option<u64>,
)
    requires
        0 <= pos <= tokens.len(),
    ensures
        spells(parse_primary(tokens, pos, numbers), tokens, pos),
    decreases tokens.len() - pos, 0int,
{
    let kind = kind_at(tokens, pos);
    if kind == TokenType::Number || kind == TokenType::String {
        lemma_kinds_join(tokens, pos, pos, pos + 1);
    } else if kind == TokenType::LeftParen {
        lemma_level_spells(tokens, pos + 1, 0, numbers);
        match parse_level(tokens, pos + 1, 0, numbers) {
            Ok((inner, next)) => {
                if kind_at(tokens, next) == TokenType::RightParen {
                    lemma_kinds_join(tokens, pos, pos, pos + 1);
                    lemma_kinds_join(tokens, pos, pos + 1, next);
                    lemma_kinds_join(tokens, pos, next, next + 1);
                }
            },
            Err(error) => {},
        }
    }
}

/// A unary expression is written with the tokens it consumed.
pub proof fn lemma_unary_spells(
    tokens: Seq<TokenView>,
    pos: int,
    numbers: spec_fn(Seq<char>) -> Option<u64>,
)
    requires
        0 <= pos <= tokens.len(),
    ensures
        spells(parse_unary(tokens, pos, numbers), tokens, pos),
    decreases tokens.len() - pos, 1int,
{
    let kind = kind_at(tokens, pos);
    if kind == TokenType::Minus || kind == TokenType::Bang {
        lemma_unary_spells(tokens, pos + 1, numbers);
        match parse_unary(tokens, pos + 1, numbers) {
            Ok((operand, next)) => {
                lemma_kinds_join(tokens, pos, pos, pos + 1);
                lemma_kinds_join(tokens, pos, pos + 1, next);
            },
            Err(error) => {},
        }
    } else {
        lemma_primary_spells(tokens, pos, numbers);
    }
}

/// The parser neither drops a token nor invents one: an expression of any
/// level is written with exactly the tokens it consumed, in their order.
pub proof fn lemma_level_spells(
    tokens: Seq<TokenView>,
    pos: int,
    level: int,
    numbers: spec_fn(Seq<char>) -> Option<u64>,
)
    requires
        0 <= pos <= tokens.len(),
    ensures
        spells(parse_level(tokens, pos, level, numbers), tokens, pos),
    decreases tokens.len() - pos,
        (if 0 <= level < 4 {
            10 - level
        } else {
            2int
        }),
{
    if level < 0 || level >= 4 {
        lemma_unary_spells(tokens, pos, numbers);
    } else {
        lemma_level_spells(tokens, pos, level + 1, numbers);
        match parse_level(tokens, pos, level + 1, numbers) {
            Ok((left, next)) => {
                lemma_tail_spells(tokens, pos, next, level, left, numbers);
            },
            Err(error) => {},
        }
    }
}

/// The pairs of operator and operand after an operand add their tokens to
/// those of the operand.
pub proof fn lemma_tail_spells(
    tokens: Seq<TokenView>,
    start: int,
    pos: int,
    level: int,
    left: ExpressionView,
    numbers: spec_fn(Seq<char>) -> Option<u64>,
)
    requires
        0 <= start <= pos <= tokens.len(),
        kinds_of(left) == kinds_between(tokens, start, pos),
    ensures
        spells(parse_tail(tokens, pos, level, left, numbers), tokens, start),
    decreases tokens.len() - pos, 0int,
{
    let operator = kind_at(tokens, pos);
    if 0 <= level < 4 && is_level_operator(level, operator) {
        lemma_level_spells(tokens, pos + 1, level + 1, numbers);
        match parse_level(tokens, pos + 1, level + 1, numbers) {
            Ok((right, next)) => {
                lemma_kinds_join(tokens, start, pos, pos + 1);
                lemma_kinds_join(tokens, start, pos + 1, next);
                lemma_tail_spells(
                    tokens,
                    start,
                    next,
                    level,
                    binary(left, operator, right),
                    numbers,
                );
            },
            Err(error) => {},
        }
    }
}

// ---------------------------------------------------------------------------
// The parser
// ---------------------------------------------------------------------------
pub struct Parser<'a, P> {
    source: &'a str,
    tokens: Vec<Token<'a>>,
    current: usize,
    read_number: P,
}

/// The result of a parsing step agrees with what the grammar gives.
pub open spec fn agrees(result: Result<Expression, ParseError>, position: int, parsed: Parsed) -> bool {
    match parsed {
        Ok((expression, next)) => result matches Ok(found) && found@ == expression && position
            == next,
        Err(error) => result matches Err(found) && found == error,
    }
}

pub open spec fn prepend_statements(
    done: Seq<StatementView>,
    rest: Result<Seq<StatementView>, ParseError>,
) -> Result<Seq<StatementView>, ParseError> {
    match rest {
        Ok(more) => Ok(done + more),
        Err(error) => Err(error),
    }
}

fn is_operator(level: u8, kind: TokenType) -> (r: bool)
    ensures
        r == is_level_operator(level as int, kind),
{
    if level == 0 {
        kind == TokenType::BangEqual || kind == TokenType::EqualEqual
    } else if level == 1 {
        kind == TokenType::Greater || kind == TokenType::GreaterEqual || kind == TokenType::Less
            || kind == TokenType::LessEqual
    } else if level == 2 {
        kind == TokenType::Minus || kind == TokenType::Plus
    } else if level == 3 {
        kind == TokenType::Slash || kind == TokenType::Star
    } else {
        false
    }
}

impl<'a, P: Fn(&str) -> Option<u64>> Parser<'a, P> {
    /// The tokens being parsed.
    pub closed spec fn tokens(&self) -> Seq<TokenView> {
        token_views(self.tokens@)
    }

    /// Index of the current token.
    pub closed spec fn position(&self) -> int {
        self.current as int
    }

    /// How number lexemes are read.
    pub closed spec fn numbers(&self) -> spec_fn(Seq<char>) -> Option<u64> {
        reader_of(self.read_number)
    }

    /// The tokens end with `Eof` and the current token is one of them.
    pub closed spec fn wf(&self) -> bool {
        &&& is_number_reader(self.read_number)
        &&& self.current < self.tokens@.len()
        &&& self.tokens@[self.tokens@.len() - 1].token_type == TokenType::Eof
    }

    /// Same tokens and reader as `before`, at a position not before its own.
    pub closed spec fn continues(&self, before: &Self) -> bool {
        &&& self.wf()
        &&& self.tokens@ == before.tokens@
        &&& self.read_number == before.read_number
        &&& before.current <= self.current
    }

    /// Scans `source` and makes a parser on its tokens, or hands on the
    /// scanner's failure.
    pub fn new(source: &'a str, read_number: P) -> (result: Result<Self, TokenError>)
        requires
            is_number_reader(read_number),
        ensures
            match scan(source@) {
                Ok(views) => result matches Ok(parser) && parser.wf() && parser.tokens() == views
                    && parser.position() == 0 && parser.numbers() == reader_of(read_number),
                Err(message) => result matches Err(error) && error@ == message,
            },
    {
        let mut scanner = Scanner::new(source);
        proof {
            lemma_tokens_end_with_eof(source@, 0, 1);
        }
        match scanner.scan_tokens() {
            Ok(tokens) => {
                assert(token_views(tokens@).last() == tokens@[tokens@.len() - 1]@);
                Ok(Parser { source: source, tokens: tokens, current: 0, read_number })
            },
            Err(e) => Err(e),
        }
    }

    /// Reads a number lexeme.
    fn read(&self, lexeme: &str) -> (r: Option<u64>)
        requires
            self.wf(),
        ensures
            r == self.numbers()(lexeme@),
    {
        let r = (self.read_number)(lexeme);
        assert(reads(self.read_number, lexeme@, r));
        r
    }

    /// The current token.
    fn peek(&self) -> (token: &Token<'a>)
        requires
            self.wf(),
        ensures
            token@ == self.tokens()[self.position()],
            token.token_type == kind_at(self.tokens(), self.position()),
            token.line == line_at(self.tokens(), self.position()),
    {
        &self.tokens[self.current]
    }

    /// Whether the current token is `Eof`.
    fn is_at_end(&self) -> (r: bool)
        requires
            self.wf(),
        ensures
            r == (kind_at(self.tokens(), self.position()) == TokenType::Eof),
    {
        self.peek().token_type == TokenType::Eof
    }

    /// Whether the current token is of the given kind and not `Eof`.
    fn check(&self, token_type: TokenType) -> (r: bool)
        requires
            self.wf(),
        ensures
            r == (kind_at(self.tokens(), self.position()) == token_type && token_type
                != TokenType::Eof),
    {
        if self.is_at_end() {
            return false;
        }
        self.peek().token_type == token_type
    }

    /// Moves to the next token, unless the current one is `Eof`.
    fn advance(&mut self)
        requires
            old(self).wf(),
        ensures
            final(self).continues(old(self)),
            final(self).position() == if kind_at(old(self).tokens(), old(self).position())
                == TokenType::Eof {
                old(self).position()
            } else {
                old(self).position() + 1
            },
    {
        if !self.is_at_end() && self.current < self.tokens.len() {
            self.current += 1;
        }
    }

    /// Consumes the current token if it is an operator of the level.
    fn match_operator(&mut self, level: u8) -> (found: Option<TokenType>)
        requires
            old(self).wf(),
        ensures
            final(self).continues(old(self)),
            ({
                let kind = kind_at(old(self).tokens(), old(self).position());
                if is_level_operator(level as int, kind) {
                    found == Some(kind) && final(self).position() == old(self).position() + 1
                } else {
                    found is None && final(self).position() == old(self).position()
                }
            }),
    {
        let kind = self.peek().token_type;
        if is_operator(level, kind) {
            self.advance();
            Some(kind)
        } else {
            None
        }
    }

    /// Consumes the current token if it is of the given kind.
    fn consume(&mut self, token_type: TokenType) -> (found: bool)
        requires
            old(self).wf(),
        ensures
            final(self).continues(old(self)),
            found == (kind_at(old(self).tokens(), old(self).position()) == token_type
                && token_type != TokenType::Eof),
            final(self).position() == if found {
                old(self).position() + 1
            } else {
                old(self).position()
            },
    {
        if !self.check(token_type) {
            return false;
        }
        self.advance();
        true
    }

    fn primary(&mut self) -> (result: Result<Expression, ParseError>)
        requires
            old(self).wf(),
        ensures
            final(self).continues(old(self)),
            agrees(
                result,
                final(self).position(),
                parse_primary(old(self).tokens(), old(self).position(), old(self).numbers()),
            ),
            result is Ok ==> old(self).position() < final(self).position(),
        decreases old(self).tokens@.len() - old(self).current, 0int,
    {
        let kind = self.peek().token_type;
        let line = self.peek().line;
        if kind == TokenType::Number {
            let lexeme = self.peek().lexeme;
            match self.read(lexeme) {
                Some(bits) => {
                    self.advance();
                    Ok(Expression::Literal(Value::Number(bits)))
                },
                None => Err(ParseError::MalformedNumber { line }),
            }
        } else if kind == TokenType::String {
            let text = String::from_str(self.peek().lexeme);
            self.advance();
            Ok(Expression::Literal(Value::String(text)))
        } else if kind == TokenType::LeftParen {
            self.advance();
            match self.expression() {
                Ok(inner) => {
                    let line = self.peek().line;
                    if self.consume(TokenType::RightParen) {
                        Ok(Expression::Grouping(Box::new(inner)))
                    } else {
                        Err(ParseError::UnclosedGrouping { line })
                    }
                },
                Err(e) => Err(e),
            }
        } else {
            Err(ParseError::ExpressionExpected { line })
        }
    }

    fn unary(&mut self) -> (result: Result<Expression, ParseError>)
        requires
            old(self).wf(),
        ensures
            final(self).continues(old(self)),
            agrees(
                result,
                final(self).position(),
                parse_unary(old(self).tokens(), old(self).position(), old(self).numbers()),
            ),
            result is Ok ==> old(self).position() < final(self).position(),
        decreases old(self).tokens@.len() - old(self).current, 1int,
    {
        let kind = self.peek().token_type;
        if kind == TokenType::Minus || kind == TokenType::Bang {
            self.advance();
            match self.unary() {
                Ok(operand) => Ok(Expression::Unary(kind, Box::new(operand))),
                Err(e) => Err(e),
            }
        } else {
            self.primary()
        }
    }

    /// One binary level of the grammar: an operand of the next level, then
    /// operator and operand pairs, folded to the left.
    fn binary_level(&mut self, level: u8) -> (result: Result<Expression, ParseError>)
        requires
            old(self).wf(),
            level < 4,
        ensures
            final(self).continues(old(self)),
            agrees(
                result,
                final(self).position(),
                parse_level(
                    old(self).tokens(),
                    old(self).position(),
                    level as int,
                    old(self).numbers(),
                ),
            ),
            result is Ok ==> old(self).position() < final(self).position(),
        decreases old(self).tokens@.len() - old(self).current, 15 - 3 * level,
    {
        let ghost tokens = self.tokens();
        let ghost numbers = self.numbers();
        let ghost whole = parse_level(tokens, self.position(), level as int, numbers);
        let mut expression = match self.operand(level) {
            Ok(e) => e,
            Err(e) => {
                return Err(e);
            },
        };
        loop
            invariant
                self.continues(old(self)),
                old(self).position() < self.position(),
                level < 4,
                tokens == old(self).tokens(),
                numbers == old(self).numbers(),
                whole == parse_level(tokens, old(self).position(), level as int, numbers),
                whole == parse_tail(tokens, self.position(), level as int, expression@, numbers),
            ensures
                whole == Ok::<(ExpressionView, int), ParseError>((expression@, self.position())),
            decreases self.tokens@.len() - self.current,
        {
            match self.match_operator(level) {
                Some(operator) => {
                    match self.operand(level) {
                        Ok(right) => {
                            expression =
                            Expression::Binary(Box::new(expression), operator, Box::new(right));
                        },
                        Err(e) => {
                            return Err(e);
                        },
                    }
                },
                None => {
                    break ;
                },
            }
        }
        Ok(expression)
    }

    /// An operand of a binary level: an expression of the next level.
    fn operand(&mut self, level: u8) -> (result: Result<Expression, ParseError>)
        requires
            old(self).wf(),
            level < 4,
        ensures
            final(self).continues(old(self)),
            agrees(
                result,
                final(self).position(),
                parse_level(
                    old(self).tokens(),
                    old(self).position(),
                    level + 1,
                    old(self).numbers(),
                ),
            ),
            result is Ok ==> old(self).position() < final(self).position(),
        decreases old(self).tokens@.len() - old(self).current, 14 - 3 * level,
    {
        if level == 0 {
            self.comparison()
        } else if level == 1 {
            self.term()
        } else if level == 2 {
            self.factor()
        } else {
            self.unary()
        }
    }

    /// `factor := unary ( ("*" | "/") unary )*`
    fn factor(&mut self) -> (result: Result<Expression, ParseError>)
        requires
            old(self).wf(),
        ensures
            final(self).continues(old(self)),
            agrees(
                result,
                final(self).position(),
                parse_level(old(self).tokens(), old(self).position(), 3, old(self).numbers()),
            ),
            result is Ok ==> old(self).position() < final(self).position(),
        decreases old(self).tokens@.len() - old(self).current, 7int,
    {
        self.binary_level(3)
    }

    /// `term := factor ( ("+" | "-") factor )*`
    fn term(&mut self) -> (result: Result<Expression, ParseError>)
        requires
            old(self).wf(),
        ensures
            final(self).continues(old(self)),
            agrees(
                result,
                final(self).position(),
                parse_level(old(self).tokens(), old(self).position(), 2, old(self).numbers()),
            ),
            result is Ok ==> old(self).position() < final(self).position(),
        decreases old(self).tokens@.len() - old(self).current, 10int,
    {
        self.binary_level(2)
    }

    /// `comparison := term ( (">" | ">=" | "<" | "<=") term )*`
    fn comparison(&mut self) -> (result: Result<Expression, ParseError>)
        requires
            old(self).wf(),
        ensures
            final(self).continues(old(self)),
            agrees(
                result,
                final(self).position(),
                parse_level(old(self).tokens(), old(self).position(), 1, old(self).numbers()),
            ),
            result is Ok ==> old(self).position() < final(self).position(),
        decreases old(self).tokens@.len() - old(self).current, 13int,
    {
        self.binary_level(1)
    }

    /// `equality := comparison ( ("!=" | "==") comparison )*`
    fn equality(&mut self) -> (result: Result<Expression, ParseError>)
        requires
            old(self).wf(),
        ensures
            final(self).continues(old(self)),
            agrees(
                result,
                final(self).position(),
                parse_level(old(self).tokens(), old(self).position(), 0, old(self).numbers()),
            ),
            result is Ok ==> old(self).position() < final(self).position(),
        decreases old(self).tokens@.len() - old(self).current, 16int,
    {
        self.binary_level(0)
    }

    /// `expression := equality`
    fn expression(&mut self) -> (result: Result<Expression, ParseError>)
        requires
            old(self).wf(),
        ensures
            final(self).continues(old(self)),
            agrees(
                result,
                final(self).position(),
                parse_expression(old(self).tokens(), old(self).position(), old(self).numbers()),
            ),
            result is Ok ==> old(self).position() < final(self).position(),
        decreases old(self).tokens@.len() - old(self).current, 17int,
    {
        self.equality()
    }

    /// The rest of a statement, after `print` if it began with it.
    fn finish_statement(&mut self, printing: bool) -> (result: Result<Statement, ParseError>)
        requires
            old(self).wf(),
        ensures
            final(self).continues(old(self)),
            match parse_expression(old(self).tokens(), old(self).position(), old(self).numbers()) {
                Ok((expression, next)) => if kind_at(old(self).tokens(), next)
                    == TokenType::Semicolon {
                    &&& result matches Ok(found) && found@ == (if printing {
                        StatementView::PrintStmt(expression)
                    } else {
                        StatementView::ExpressionStmt(expression)
                    })
                    &&& final(self).position() == next + 1
                } else {
                    result matches Err(error) && error == (ParseError::UnterminatedStatement {
                        printing,
                        line: line_at(old(self).tokens(), next),
                    })
                },
                Err(error) => result matches Err(found) && found == error,
            },
            result is Ok ==> old(self).position() < final(self).position(),
    {
        match self.expression() {
            Ok(expression) => {
                let line = self.peek().line;
                if self.consume(TokenType::Semicolon) {
                    if printing {
                        Ok(Statement::PrintStmt(expression))
                    } else {
                        Ok(Statement::ExpressionStmt(expression))
                    }
                } else {
                    Err(ParseError::UnterminatedStatement { printing, line })
                }
            },
            Err(e) => Err(e),
        }
    }

    fn print_statement(&mut self) -> (result: Result<Statement, ParseError>)
        requires
            old(self).wf(),
        ensures
            final(self).continues(old(self)),
            result is Ok ==> old(self).position() < final(self).position(),
            kind_at(old(self).tokens(), old(self).position() - 1) == TokenType::Print ==> match parse_statement(
                old(self).tokens(),
                old(self).position() - 1,
                old(self).numbers(),
            ) {
                Ok((statement, next)) => result matches Ok(found) && found@ == statement
                    && final(self).position() == next,
                Err(error) => result matches Err(found) && found == error,
            },
    {
        self.finish_statement(true)
    }

    fn expression_statement(&mut self) -> (result: Result<Statement, ParseError>)
        requires
            old(self).wf(),
        ensures
            final(self).continues(old(self)),
            result is Ok ==> old(self).position() < final(self).position(),
            kind_at(old(self).tokens(), old(self).position()) != TokenType::Print ==> match parse_statement(
                old(self).tokens(),
                old(self).position(),
                old(self).numbers(),
            ) {
                Ok((statement, next)) => result matches Ok(found) && found@ == statement
                    && final(self).position() == next,
                Err(error) => result matches Err(found) && found == error,
            },
    {
        self.finish_statement(false)
    }

    fn statement(&mut self) -> (result: Result<Statement, ParseError>)
        requires
            old(self).wf(),
        ensures
            final(self).continues(old(self)),
            result is Ok ==> old(self).position() < final(self).position(),
            match parse_statement(old(self).tokens(), old(self).position(), old(self).numbers()) {
                Ok((statement, next)) => result matches Ok(found) && found@ == statement
                    && final(self).position() == next,
                Err(error) => result matches Err(found) && found == error,
            },
    {
        if self.consume(TokenType::Print) {
            return self.print_statement();
        }
        self.expression_statement()
    }

    /// Parses one expression at the current position.
    pub fn parse(&mut self) -> (result: Result<Expression, ParseError>)
        requires
            old(self).wf(),
        ensures
            final(self).wf(),
            final(self).tokens() == old(self).tokens(),
            final(self).numbers() == old(self).numbers(),
            agrees(
                result,
                final(self).position(),
                parse_expression(old(self).tokens(), old(self).position(), old(self).numbers()),
            ),
    {
        self.expression()
    }

    /// Parses statements up to `Eof`; the first error ends the parse.
    pub fn parse_source(&mut self) -> (result: Result<Vec<Statement>, ParseError>)
        requires
            old(self).wf(),
        ensures
            final(self).wf(),
            final(self).tokens() == old(self).tokens(),
            final(self).numbers() == old(self).numbers(),
            match parse_statements(old(self).tokens(), old(self).position(), old(self).numbers()) {
                Ok(views) => result matches Ok(statements) && statement_views(statements@)
                    == views,
                Err(error) => result matches Err(found) && found == error,
            },
    {
        let mut statements: Vec<Statement> = Vec::new();
        let ghost tokens = self.tokens();
        let ghost numbers = self.numbers();
        let ghost whole = parse_statements(tokens, self.position(), numbers);
        proof {
            assert(statement_views(statements@) =~= Seq::<StatementView>::empty());
            assert(Seq::<StatementView>::empty() + whole->Ok_0 =~= whole->Ok_0);
        }
        while !self.is_at_end()
            invariant
                self.continues(old(self)),
                tokens == old(self).tokens(),
                numbers == old(self).numbers(),
                whole == parse_statements(tokens, old(self).position(), numbers),
                whole == prepend_statements(
                    statement_views(statements@),
                    parse_statements(tokens, self.position(), numbers),
                ),
            decreases self.tokens@.len() - self.current,
        {
            let ghost done = statement_views(statements@);
            match self.statement() {
                Ok(statement) => {
                    let ghost view = statement@;
                    statements.push(statement);
                    proof {
                        assert(statement_views(statements@) =~= done.push(view));
                        assert(done.push(view) =~= done + seq![view]);
                        let rest = parse_statements(tokens, self.position(), numbers);
                        if rest is Ok {
                            assert(done + (seq![view] + rest->Ok_0) =~= (done + seq![view])
                                + rest->Ok_0);
                        }
                    }
                },
                Err(e) => {
                    return Err(e);
                },
            }
        }
        proof {
            assert(statement_views(statements@) + Seq::<StatementView>::empty()
                =~= statement_views(statements@));
        }
        Ok(statements)
    }
}

} // verus!
