//! Lexical scanner: turns source text into a flat sequence of tokens.
//!
//! The meaning of scanning is given by spec functions over `Seq<char>`
//! (`token_at`, `tokens_from`); the executable `Scanner` is proved to
//! compute exactly those.
use peekmore::PeekMore;
use peekmore::PeekMoreIterator;
use crate::text::{char_text, same_text};
use std::str::Chars;
use vstd::prelude::*;
use vstd::string::*;

verus! {

// ---------------------------------------------------------------------------
// Token kinds and tokens
// ---------------------------------------------------------------------------
#[derive(Debug, PartialEq, Eq, Copy, Clone, Structural)]
pub enum TokenType {
    // Single-character tokens.
    LeftParen,
    RightParen,
    LeftBrace,
    RightBrace,
    Comma,
    Dot,
    Semicolon,
    Minus,
    Plus,
    Star,
    Slash,
    Eof,
    // One or two character tokens.
    Bang,
    BangEqual,
    Equal,
    EqualEqual,
    Greater,
    GreaterEqual,
    Less,
    LessEqual,
    // String, number and identifier tokens.
    String,
    Number,
    Identifier,
    // Keywords.
    And,
    Class,
    Else,
    False,
    Fun,
    For,
    If,
    Nil,
    Or,
    Print,
    Return,
    Super,
    This,
    True,
    Var,
    While,
}

/// The name of a token kind, as messages show it.
pub open spec fn kind_name(kind: TokenType) -> Seq<char> {
    match kind {
        TokenType::LeftParen => "LeftParen"@,
        TokenType::RightParen => "RightParen"@,
        TokenType::LeftBrace => "LeftBrace"@,
        TokenType::RightBrace => "RightBrace"@,
        TokenType::Comma => "Comma"@,
        TokenType::Dot => "Dot"@,
        TokenType::Semicolon => "Semicolon"@,
        TokenType::Minus => "Minus"@,
        TokenType::Plus => "Plus"@,
        TokenType::Star => "Star"@,
        TokenType::Slash => "Slash"@,
        TokenType::Eof => "Eof"@,
        TokenType::Bang => "Bang"@,
        TokenType::BangEqual => "BangEqual"@,
        TokenType::Equal => "Equal"@,
        TokenType::EqualEqual => "EqualEqual"@,
        TokenType::Greater => "Greater"@,
        TokenType::GreaterEqual => "GreaterEqual"@,
        TokenType::Less => "Less"@,
        TokenType::LessEqual => "LessEqual"@,
        TokenType::String => "String"@,
        TokenType::Number => "Number"@,
        TokenType::Identifier => "Identifier"@,
        TokenType::And => "And"@,
        TokenType::Class => "Class"@,
        TokenType::Else => "Else"@,
        TokenType::False => "False"@,
        TokenType::Fun => "Fun"@,
        TokenType::For => "For"@,
        TokenType::If => "If"@,
        TokenType::Nil => "Nil"@,
        TokenType::Or => "Or"@,
        TokenType::Print => "Print"@,
        TokenType::Return => "Return"@,
        TokenType::Super => "Super"@,
        TokenType::This => "This"@,
        TokenType::True => "True"@,
        TokenType::Var => "Var"@,
        TokenType::While => "While"@,
    }
}

impl TokenType {
    /// The name of the kind.
    pub fn name(&self) -> (text: &'static str)
        ensures
            text@ == kind_name(*self),
    {
        match self {
            TokenType::LeftParen => "LeftParen",
            TokenType::RightParen => "RightParen",
            TokenType::LeftBrace => "LeftBrace",
            TokenType::RightBrace => "RightBrace",
            TokenType::Comma => "Comma",
            TokenType::Dot => "Dot",
            TokenType::Semicolon => "Semicolon",
            TokenType::Minus => "Minus",
            TokenType::Plus => "Plus",
            TokenType::Star => "Star",
            TokenType::Slash => "Slash",
            TokenType::Eof => "Eof",
            TokenType::Bang => "Bang",
            TokenType::BangEqual => "BangEqual",
            TokenType::Equal => "Equal",
            TokenType::EqualEqual => "EqualEqual",
            TokenType::Greater => "Greater",
            TokenType::GreaterEqual => "GreaterEqual",
            TokenType::Less => "Less",
            TokenType::LessEqual => "LessEqual",
            TokenType::String => "String",
            TokenType::Number => "Number",
            TokenType::Identifier => "Identifier",
            TokenType::And => "And",
            TokenType::Class => "Class",
            TokenType::Else => "Else",
            TokenType::False => "False",
            TokenType::Fun => "Fun",
            TokenType::For => "For",
            TokenType::If => "If",
            TokenType::Nil => "Nil",
            TokenType::Or => "Or",
            TokenType::Print => "Print",
            TokenType::Return => "Return",
            TokenType::Super => "Super",
            TokenType::This => "This",
            TokenType::True => "True",
            TokenType::Var => "Var",
            TokenType::While => "While",
        }
    }
}

/// A token: its kind, the slice of the source it was read from, and the line
/// on which it ends.
#[derive(Debug, PartialEq)]
pub struct Token<'a> {
    pub token_type: TokenType,
    pub lexeme: &'a str,
    pub line: i32,
}

/// The mathematical content of a token.
pub ghost struct TokenView {
    pub kind: TokenType,
    pub lexeme: Seq<char>,
    pub line: int,
}

impl<'a> View for Token<'a> {
    type V = TokenView;

    open spec fn view(&self) -> TokenView {
        TokenView { kind: self.token_type, lexeme: self.lexeme@, line: self.line as int }
    }
}

/// A scanning failure, carrying its rendered message.
#[derive(Debug, PartialEq)]
pub struct TokenError(pub String);

impl View for TokenError {
    type V = Seq<char>;

    open spec fn view(&self) -> Seq<char> {
        self.0@
    }
}

pub type TokenResult<'a> = Result<Token<'a>, TokenError>;

// ---------------------------------------------------------------------------
// Character classes
// ---------------------------------------------------------------------------
/// The code points with the Unicode `White_Space` property.
pub open spec fn is_space(c: char) -> bool {
    let n = c as u32;
    (0x09 <= n <= 0x0D) || n == 0x20 || n == 0x85 || n == 0xA0 || n == 0x1680 || (0x2000 <= n
        <= 0x200A) || n == 0x2028 || n == 0x2029 || n == 0x202F || n == 0x205F || n == 0x3000
}

pub open spec fn is_digit(c: char) -> bool {
    '0' <= c <= '9'
}

/// Whether a character is alphabetic or numeric in the Unicode sense.
pub uninterp spec fn unicode_alphanumeric(c: char) -> bool;

pub open spec fn is_ascii_letter(c: char) -> bool {
    ('a' <= c <= 'z') || ('A' <= c <= 'Z')
}

pub open spec fn is_identifier_start(c: char) -> bool {
    is_ascii_letter(c) || c == '_'
}

pub open spec fn is_identifier_part(c: char) -> bool {
    unicode_alphanumeric(c) || c == '_'
}

pub open spec fn is_number_part(c: char) -> bool {
    is_digit(c) || c == '.'
}

pub open spec fn is_string_part(c: char) -> bool {
    c != '"'
}

pub open spec fn space_class() -> spec_fn(char) -> bool {
    |c: char| is_space(c)
}

pub open spec fn number_class() -> spec_fn(char) -> bool {
    |c: char| is_number_part(c)
}

pub open spec fn string_class() -> spec_fn(char) -> bool {
    |c: char| is_string_part(c)
}

pub open spec fn identifier_class() -> spec_fn(char) -> bool {
    |c: char| is_identifier_part(c)
}

/// Whether a character is white space.
pub fn char_is_whitespace(c: char) -> (r: bool)
    ensures
        r == is_space(c),
{
    let n = c as u32;
    (0x09 <= n && n <= 0x0D) || n == 0x20 || n == 0x85 || n == 0xA0 || n == 0x1680 || (0x2000 <= n
        && n <= 0x200A) || n == 0x2028 || n == 0x2029 || n == 0x202F || n == 0x205F || n == 0x3000
}

/// `char::is_alphanumeric`: the result is named `unicode_alphanumeric`; on
/// ASCII it is true exactly for the letters and the decimal digits.
#[verifier::external_body]
fn char_is_alphanumeric(c: char) -> (r: bool)
    ensures
        r == unicode_alphanumeric(c),
        (c as u32) < 128 ==> r == (is_ascii_letter(c) || is_digit(c)),
{
    c.is_alphanumeric()
}

/// The decimal digit for `d` in `0..=9`.
pub open spec fn digit_char(d: int) -> char {
    if d == 0 {
        '0'
    } else if d == 1 {
        '1'
    } else if d == 2 {
        '2'
    } else if d == 3 {
        '3'
    } else if d == 4 {
        '4'
    } else if d == 5 {
        '5'
    } else if d == 6 {
        '6'
    } else if d == 7 {
        '7'
    } else if d == 8 {
        '8'
    } else {
        '9'
    }
}

/// Decimal rendering of a natural number, without leading zeros.
pub open spec fn decimal_nat(n: nat) -> Seq<char>
    decreases n,
{
    if n < 10 {
        seq![digit_char(n as int)]
    } else {
        decimal_nat(n / 10).push(digit_char((n % 10) as int))
    }
}

/// Decimal rendering of an integer, with a leading `-` when negative.
pub open spec fn decimal(n: int) -> Seq<char> {
    if n < 0 {
        seq!['-'] + decimal_nat((-n) as nat)
    } else {
        decimal_nat(n as nat)
    }
}

/// `i32`'s `Display`: the number in decimal, with a minus sign when negative.
#[verifier::external_body]
pub(crate) fn line_text(line: i32) -> (r: String)
    ensures
        r@ == decimal(line as int),
{
    format!("{}", line)
}

// ---------------------------------------------------------------------------
// What scanning means
// ---------------------------------------------------------------------------
/// End of the maximal run of characters satisfying `part`, starting at `pos`.
pub open spec fn run_end(s: Seq<char>, pos: int, part: spec_fn(char) -> bool) -> int
    decreases s.len() - pos,
{
    if 0 <= pos < s.len() && part(s[pos]) {
        run_end(s, pos + 1, part)
    } else {
        pos
    }
}

/// Number of line feeds in `s[from..to]`.
pub open spec fn newlines(s: Seq<char>, from: int, to: int) -> int
    decreases to - from,
{
    if from < to {
        newlines(s, from, to - 1) + if s[to - 1] == '\n' {
            1int
        } else {
            0int
        }
    } else {
        0
    }
}

/// Line numbers saturate at `i32::MAX`.
pub open spec fn clip_line(n: int) -> int {
    if n > i32::MAX {
        i32::MAX as int
    } else {
        n
    }
}

pub open spec fn punctuation_kind(c: char) -> Option<TokenType> {
    if c == '(' {
        Some(TokenType::LeftParen)
    } else if c == ')' {
        Some(TokenType::RightParen)
    } else if c == '{' {
        Some(TokenType::LeftBrace)
    } else if c == '}' {
        Some(TokenType::RightBrace)
    } else if c == ',' {
        Some(TokenType::Comma)
    } else if c == '.' {
        Some(TokenType::Dot)
    } else if c == '-' {
        Some(TokenType::Minus)
    } else if c == '+' {
        Some(TokenType::Plus)
    } else if c == '*' {
        Some(TokenType::Star)
    } else if c == '/' {
        Some(TokenType::Slash)
    } else if c == ';' {
        Some(TokenType::Semicolon)
    } else {
        None
    }
}

/// For the characters that may be followed by `=`: the kind of the
/// two-character operator and the kind of the character alone.
pub open spec fn operator_kinds(c: char) -> Option<(TokenType, TokenType)> {
    if c == '!' {
        Some((TokenType::BangEqual, TokenType::Bang))
    } else if c == '=' {
        Some((TokenType::EqualEqual, TokenType::Equal))
    } else if c == '>' {
        Some((TokenType::GreaterEqual, TokenType::Greater))
    } else if c == '<' {
        Some((TokenType::LessEqual, TokenType::Less))
    } else {
        None
    }
}

/// The keyword table: the kind of a word, `Identifier` when it is no keyword.
pub open spec fn word_kind(word: Seq<char>) -> TokenType {
    if word == "and"@ {
        TokenType::And
    } else if word == "class"@ {
        TokenType::Class
    } else if word == "else"@ {
        TokenType::Else
    } else if word == "false"@ {
        TokenType::False
    } else if word == "for"@ {
        TokenType::For
    } else if word == "fun"@ {
        TokenType::Fun
    } else if word == "if"@ {
        TokenType::If
    } else if word == "nil"@ {
        TokenType::Nil
    } else if word == "or"@ {
        TokenType::Or
    } else if word == "print"@ {
        TokenType::Print
    } else if word == "return"@ {
        TokenType::Return
    } else if word == "super"@ {
        TokenType::Super
    } else if word == "this"@ {
        TokenType::This
    } else if word == "true"@ {
        TokenType::True
    } else if word == "var"@ {
        TokenType::Var
    } else if word == "while"@ {
        TokenType::While
    } else {
        TokenType::Identifier
    }
}

pub open spec fn unexpected_character_message(c: char, line: int) -> Seq<char> {
    "Unexpected character: "@ + seq![c] + "; Line: "@ + decimal(line)
}

pub open spec fn unterminated_string_message() -> Seq<char> {
    "Unterminated string."@
}

/// The result of reading one token at a position of the text.
pub ghost enum Step {
    /// A token, the position after it, and the line reached.
    Token { token: TokenView, next: int, line: int },
    /// The scan fails with this message.
    Failure { message: Seq<char> },
}

/// One token read from `s`, starting at `pos` on line `line`: whitespace is
/// skipped first, then the longest lexeme of the matching kind is taken.
pub open spec fn token_at(s: Seq<char>, pos: int, line: int) -> Step {
    let start = run_end(s, pos, space_class());
    let line = clip_line(line + newlines(s, pos, start));
    if !(0 <= start < s.len()) {
        Step::Token {
            token: TokenView { kind: TokenType::Eof, lexeme: Seq::empty(), line },
            next: start,
            line,
        }
    } else {
        let c = s[start];
        if is_digit(c) {
            let end = run_end(s, start + 1, number_class());
            Step::Token {
                token: TokenView { kind: TokenType::Number, lexeme: s.subrange(start, end), line },
                next: end,
                line,
            }
        } else if punctuation_kind(c) is Some {
            Step::Token {
                token: TokenView {
                    kind: punctuation_kind(c).unwrap(),
                    lexeme: s.subrange(start, start + 1),
                    line,
                },
                next: start + 1,
                line,
            }
        } else if operator_kinds(c) is Some {
            if start + 1 < s.len() && s[start + 1] == '=' {
                Step::Token {
                    token: TokenView {
                        kind: operator_kinds(c).unwrap().0,
                        lexeme: s.subrange(start, start + 2),
                        line,
                    },
                    next: start + 2,
                    line,
                }
            } else {
                Step::Token {
                    token: TokenView {
                        kind: operator_kinds(c).unwrap().1,
                        lexeme: s.subrange(start, start + 1),
                        line,
                    },
                    next: start + 1,
                    line,
                }
            }
        } else if c == '"' {
            let end = run_end(s, start + 1, string_class());
            let line = clip_line(line + newlines(s, start + 1, end));
            if end >= s.len() {
                Step::Failure { message: unterminated_string_message() }
            } else {
                Step::Token {
                    token: TokenView {
                        kind: TokenType::String,
                        lexeme: s.subrange(start + 1, end),
                        line,
                    },
                    next: end + 1,
                    line,
                }
            }
        } else if is_identifier_start(c) {
            let end = run_end(s, start + 1, identifier_class());
            Step::Token {
                token: TokenView {
                    kind: word_kind(s.subrange(start, end)),
                    lexeme: s.subrange(start, end),
                    line,
                },
                next: end,
                line,
            }
        } else {
            Step::Failure { message: unexpected_character_message(c, line) }
        }
    }
}

/// All the tokens of `s` from `pos` on, up to and including `Eof`, or the
/// message of the first failure.
pub open spec fn tokens_from(s: Seq<char>, pos: int, line: int) -> Result<
    Seq<TokenView>,
    Seq<char>,
>
    decreases s.len() - pos,
{
    match token_at(s, pos, line) {
        Step::Failure { message } => Err(message),
        Step::Token { token, next, line } => {
            if token.kind == TokenType::Eof || next <= pos || next > s.len() {
                Ok(seq![token])
            } else {
                match tokens_from(s, next, line) {
                    Ok(rest) => Ok(seq![token] + rest),
                    Err(message) => Err(message),
                }
            }
        },
    }
}

/// The tokens of a whole source text.
pub open spec fn scan(s: Seq<char>) -> Result<Seq<TokenView>, Seq<char>> {
    tokens_from(s, 0, 1)
}

pub open spec fn token_views(tokens: Seq<Token>) -> Seq<TokenView> {
    tokens.map_values(|t: Token| t@)
}

pub open spec fn prepend(done: Seq<TokenView>, rest: Result<Seq<TokenView>, Seq<char>>) -> Result<
    Seq<TokenView>,
    Seq<char>,
> {
    match rest {
        Ok(more) => Ok(done + more),
        Err(message) => Err(message),
    }
}

pub proof fn lemma_run_end_bounds(s: Seq<char>, pos: int, part: spec_fn(char) -> bool)
    ensures
        pos <= run_end(s, pos, part),
        pos <= s.len() ==> run_end(s, pos, part) <= s.len(),
        0 <= run_end(s, pos, part) < s.len() ==> !part(s[run_end(s, pos, part)]),
    decreases s.len() - pos,
{
    if 0 <= pos < s.len() && part(s[pos]) {
        lemma_run_end_bounds(s, pos + 1, part);
    }
}

/// Every token but `Eof` consumes at least one character.
pub proof fn lemma_token_progress(s: Seq<char>, pos: int, line: int)
    requires
        0 <= pos <= s.len(),
    ensures
        match token_at(s, pos, line) {
            Step::Token { token, next, line } => pos <= next <= s.len() && (token.kind
                != TokenType::Eof ==> pos < next),
            Step::Failure { message } => true,
        },
{
    let start = run_end(s, pos, space_class());
    lemma_run_end_bounds(s, pos, space_class());
    lemma_run_end_bounds(s, start + 1, number_class());
    lemma_run_end_bounds(s, start + 1, string_class());
    lemma_run_end_bounds(s, start + 1, identifier_class());
}

/// A token's lexeme is a slice of the text, taken from the part that the
/// token consumed, and the line never goes back.
pub proof fn lemma_lexeme_is_a_slice(s: Seq<char>, pos: int, line: int)
    requires
        0 <= pos <= s.len(),
        1 <= line <= i32::MAX,
    ensures
        match token_at(s, pos, line) {
            Step::Token { token, next, line: reached } => {
                &&& line <= reached <= i32::MAX
                &&& token.line == reached
                &&& exists|from: int|
                    pos <= from && from + token.lexeme.len() <= next && #[trigger] s.subrange(
                        from,
                        from + token.lexeme.len(),
                    ) == token.lexeme
            },
            Step::Failure { message } => true,
        },
{
    let start = run_end(s, pos, space_class());
    lemma_run_end_bounds(s, pos, space_class());
    lemma_run_end_bounds(s, start + 1, number_class());
    lemma_run_end_bounds(s, start + 1, string_class());
    lemma_run_end_bounds(s, start + 1, identifier_class());
    lemma_newlines_nonnegative(s, pos, start);
    match token_at(s, pos, line) {
        Step::Token { token, next, line: reached } => {
            if !(0 <= start < s.len()) {
                assert(s.subrange(start, start + 0) =~= token.lexeme);
            } else if s[start] == '"' {
                let end = run_end(s, start + 1, string_class());
                lemma_newlines_nonnegative(s, start + 1, end);
                assert(s.subrange(start + 1, start + 1 + token.lexeme.len()) == token.lexeme);
            } else {
                assert(s.subrange(start, start + token.lexeme.len()) == token.lexeme);
            }
        },
        Step::Failure { message } => {},
    }
}

pub proof fn lemma_newlines_nonnegative(s: Seq<char>, from: int, to: int)
    ensures
        0 <= newlines(s, from, to),
    decreases to - from,
{
    if from < to {
        lemma_newlines_nonnegative(s, from, to - 1);
    }
}

/// The tokens of a text end with `Eof`, and no token before the last is `Eof`.
pub proof fn lemma_tokens_end_with_eof(s: Seq<char>, pos: int, line: int)
    requires
        0 <= pos <= s.len(),
    ensures
        tokens_from(s, pos, line) matches Ok(tokens) ==> {
            &&& tokens.len() > 0
            &&& tokens.last().kind == TokenType::Eof
            &&& forall|i: int| 0 <= i < tokens.len() - 1 ==> tokens[i].kind != TokenType::Eof
        },
    decreases s.len() - pos,
{
    lemma_token_progress(s, pos, line);
    match token_at(s, pos, line) {
        Step::Failure { message } => {},
        Step::Token { token, next, line } => {
            if token.kind == TokenType::Eof || next <= pos || next > s.len() {
            } else {
                lemma_tokens_end_with_eof(s, next, line);
            }
        },
    }
}

// ---------------------------------------------------------------------------
// The character source
// ---------------------------------------------------------------------------
/// `peekmore::PeekMoreIterator`, an iterator that can be looked ahead into
/// without being consumed. Nothing of its inside is known here; what it has
/// yet to hand out is named `pending`, and where its cursor stands,
/// `lookahead`.
#[verifier::external_type_specification]
#[verifier::external_body]
#[verifier::reject_recursive_types(I)]
pub struct ExPeekMoreIterator<I: Iterator>(PeekMoreIterator<I>);

/// The characters that the iterator has yet to hand out, in order.
pub uninterp spec fn pending(chars: PeekMoreIterator<Chars<'_>>) -> Seq<char>;

/// How many items the iterator's peek cursor stands ahead of the next item.
pub uninterp spec fn lookahead(chars: PeekMoreIterator<Chars<'_>>) -> nat;

/// `PeekMore::peekmore` on `str::chars`: a fresh iterator over the
/// characters of `source`, with its peek cursor on the first of them.
#[verifier::external_body]
fn peekable_chars<'a>(source: &'a str) -> (chars: PeekMoreIterator<Chars<'a>>)
    ensures
        pending(chars) == source@,
        lookahead(chars) == 0,
{
    source.chars().peekmore()
}

/// `PeekMoreIterator::peek` with the cursor on the next item: that item, if
/// there is one; nothing is consumed and the cursor stays.
#[verifier::external_body]
fn peek_char(chars: &mut PeekMoreIterator<Chars<'_>>) -> (c: Option<char>)
    requires
        lookahead(*old(chars)) == 0,
    ensures
        pending(*final(chars)) == pending(*old(chars)),
        lookahead(*final(chars)) == 0,
        c == if pending(*old(chars)).len() > 0 {
            Some(pending(*old(chars))[0])
        } else {
            None
        },
{
    chars.peek().copied()
}

/// `Iterator::next` of `PeekMoreIterator`: hands out the first pending item,
/// if there is one, and moves the cursor back by one unless it is at zero.
#[verifier::external_body]
fn next_char(chars: &mut PeekMoreIterator<Chars<'_>>) -> (c: Option<char>)
    ensures
        c == if pending(*old(chars)).len() > 0 {
            Some(pending(*old(chars))[0])
        } else {
            None
        },
        pending(*final(chars)) == if pending(*old(chars)).len() > 0 {
            pending(*old(chars)).drop_first()
        } else {
            pending(*old(chars))
        },
        lookahead(*final(chars)) == if lookahead(*old(chars)) > 0 {
            (lookahead(*old(chars)) - 1) as nat
        } else {
            0nat
        },
{
    chars.next()
}

// ---------------------------------------------------------------------------
// The scanner
// ---------------------------------------------------------------------------
pub struct Scanner<'a> {
    source: &'a str,
    chars: PeekMoreIterator<Chars<'a>>,
    start: usize,
    current: usize,
    line: i32,
}

/// The tokens of `source`, up to and including `Eof`, or the first failure.
pub fn scan_source<'a>(source: &'a str) -> (result: Result<Vec<Token<'a>>, TokenError>)
    ensures
        match scan(source@) {
            Ok(views) => result matches Ok(tokens) && token_views(tokens@) == views,
            Err(message) => result matches Err(error) && error@ == message,
        },
{
    let mut scanner = Scanner::new(source);
    scanner.scan_tokens()
}

/// The kind of a word: a keyword's kind, or `Identifier`.
pub fn keyword(word: &str) -> (kind: TokenType)
    ensures
        kind == word_kind(word@),
{
    if same_text(word, "and") {
        TokenType::And
    } else if same_text(word, "class") {
        TokenType::Class
    } else if same_text(word, "else") {
        TokenType::Else
    } else if same_text(word, "false") {
        TokenType::False
    } else if same_text(word, "for") {
        TokenType::For
    } else if same_text(word, "fun") {
        TokenType::Fun
    } else if same_text(word, "if") {
        TokenType::If
    } else if same_text(word, "nil") {
        TokenType::Nil
    } else if same_text(word, "or") {
        TokenType::Or
    } else if same_text(word, "print") {
        TokenType::Print
    } else if same_text(word, "return") {
        TokenType::Return
    } else if same_text(word, "super") {
        TokenType::Super
    } else if same_text(word, "this") {
        TokenType::This
    } else if same_text(word, "true") {
        TokenType::True
    } else if same_text(word, "var") {
        TokenType::Var
    } else if same_text(word, "while") {
        TokenType::While
    } else {
        TokenType::Identifier
    }
}

fn unexpected_character(c: char, line: i32) -> (error: TokenError)
    ensures
        error@ == unexpected_character_message(c, line as int),
{
    let mut message = String::from_str("Unexpected character: ");
    message.append(char_text(c).as_str());
    message.append("; Line: ");
    message.append(line_text(line).as_str());
    TokenError(message)
}

impl<'a> Scanner<'a> {
    /// The whole source text.
    pub closed spec fn text(&self) -> Seq<char> {
        self.source@
    }

    /// Index of the next character to read.
    pub closed spec fn position(&self) -> int {
        self.current as int
    }

    /// Index at which the lexeme being read began.
    pub closed spec fn lexeme_start(&self) -> int {
        self.start as int
    }

    /// The current line, counted from 1.
    pub closed spec fn line_number(&self) -> int {
        self.line as int
    }

    /// The cursor lies within the text, and the character source holds
    /// exactly the part of the text that is still to be read.
    pub closed spec fn wf(&self) -> bool {
        &&& self.start <= self.current <= self.source@.len() <= usize::MAX
        &&& pending(self.chars) == self.source@.subrange(
            self.current as int,
            self.source@.len() as int,
        )
        &&& lookahead(self.chars) == 0
        &&& 1 <= self.line
    }

    /// Same text as `before`, with the given cursor values.
    pub closed spec fn at(&self, before: &Scanner<'a>, start: int, current: int, line: int) -> bool {
        &&& self.wf()
        &&& self.source@ == before.source@
        &&& self.source == before.source
        &&& self.start == start
        &&& self.current == current
        &&& self.line == line
    }

    pub fn new(source: &'a str) -> (scanner: Scanner<'a>)
        ensures
            scanner.wf(),
            scanner.text() == source@,
            scanner.position() == 0,
            scanner.line_number() == 1,
    {
        let chars = peekable_chars(source);
        let length = source.unicode_len();
        proof {
            assert(source@.subrange(0, source@.len() as int) =~= source@);
        }
        Scanner { source: source, chars: chars, start: 0, current: 0, line: 1 }
    }

    fn peek(&mut self) -> (c: Option<char>)
        requires
            old(self).wf(),
        ensures
            final(self).at(
                old(self),
                old(self).lexeme_start(),
                old(self).position(),
                old(self).line_number(),
            ),
            c == if old(self).position() < old(self).text().len() {
                Some(old(self).text()[old(self).position()])
            } else {
                None
            },
    {
        peek_char(&mut self.chars)
    }

    fn advance(&mut self) -> (c: Option<char>)
        requires
            old(self).wf(),
        ensures
            final(self).at(
                old(self),
                old(self).lexeme_start(),
                if c is Some {
                    old(self).position() + 1
                } else {
                    old(self).position()
                },
                old(self).line_number(),
            ),
            c == if old(self).position() < old(self).text().len() {
                Some(old(self).text()[old(self).position()])
            } else {
                None
            },
    {
        let ghost s = self.source@;
        let ghost cur = self.current as int;
        match next_char(&mut self.chars) {
            Some(c) => {
                assert(s.subrange(cur, s.len() as int).len() > 0);
                self.current += 1;
                proof {
                    assert(s.subrange(cur, s.len() as int).drop_first() =~= s.subrange(
                        cur + 1,
                        s.len() as int,
                    ));
                }
                Some(c)
            },
            None => None,
        }
    }

    fn next_line(&mut self)
        requires
            old(self).wf(),
        ensures
            final(self).at(
                old(self),
                old(self).lexeme_start(),
                old(self).position(),
                clip_line(old(self).line_number() + 1),
            ),
    {
        if self.line < i32::MAX {
            self.line += 1;
        }
    }

    fn make_token(&self, token_type: TokenType) -> (result: TokenResult<'a>)
        requires
            self.wf(),
        ensures
            result matches Ok(token) && token@ == (TokenView {
                kind: token_type,
                lexeme: self.text().subrange(self.lexeme_start(), self.position()),
                line: self.line_number(),
            }),
    {
        Ok(
            Token {
                token_type: token_type,
                lexeme: self.source.substring_char(self.start, self.current),
                line: self.line,
            },
        )
    }

    fn make_token_if_matches(
        &mut self,
        expected: char,
        if_token: TokenType,
        else_token: TokenType,
    ) -> (result: TokenResult<'a>)
        requires
            old(self).wf(),
        ensures
            ({
                let s = old(self).text();
                let pos = old(self).position();
                let matched = pos < s.len() && s[pos] == expected;
                &&& final(self).at(
                    old(self),
                    old(self).lexeme_start(),
                    if matched {
                        pos + 1
                    } else {
                        pos
                    },
                    old(self).line_number(),
                )
                &&& result matches Ok(token) && token@ == (TokenView {
                    kind: if matched {
                        if_token
                    } else {
                        else_token
                    },
                    lexeme: s.subrange(old(self).lexeme_start(), final(self).position()),
                    line: old(self).line_number(),
                })
            }),
    {
        match self.peek() {
            Some(c) => {
                if c == expected {
                    self.advance();
                    self.make_token(if_token)
                } else {
                    self.make_token(else_token)
                }
            },
            None => self.make_token(else_token),
        }
    }

    fn skip_whitespaces(&mut self)
        requires
            old(self).wf(),
        ensures
            final(self).at(
                old(self),
                old(self).lexeme_start(),
                run_end(old(self).text(), old(self).position(), space_class()),
                clip_line(
                    old(self).line_number() + newlines(
                        old(self).text(),
                        old(self).position(),
                        run_end(old(self).text(), old(self).position(), space_class()),
                    ),
                ),
            ),
    {
        let ghost s = self.source@;
        let ghost before = *self;
        let ghost pos0 = self.current as int;
        let ghost line0 = self.line as int;
        loop
            invariant
                self.at(
                    &before,
                    before.start as int,
                    self.current as int,
                    clip_line(line0 + newlines(s, pos0, self.current as int)),
                ),
                before.wf(),
                s == before.source@,
                pos0 == before.current,
                line0 == before.line,
                pos0 <= self.current,
                0 <= newlines(s, pos0, self.current as int),
                run_end(s, pos0, space_class()) == run_end(s, self.current as int, space_class()),
            ensures
                run_end(s, self.current as int, space_class()) == self.current,
            decreases s.len() - self.current,
        {
            match self.peek() {
                Some(c) => {
                    if c == '\n' {
                        self.advance();
                        self.next_line();
                    } else if char_is_whitespace(c) {
                        self.advance();
                    } else {
                        break ;
                    }
                },
                None => {
                    break ;
                },
            }
        }
    }

    fn number(&mut self) -> (result: TokenResult<'a>)
        requires
            old(self).wf(),
        ensures
            ({
                let s = old(self).text();
                let end = run_end(s, old(self).position(), number_class());
                &&& final(self).at(
                    old(self),
                    old(self).lexeme_start(),
                    end,
                    old(self).line_number(),
                )
                &&& result matches Ok(token) && token@ == (TokenView {
                    kind: TokenType::Number,
                    lexeme: s.subrange(old(self).lexeme_start(), end),
                    line: old(self).line_number(),
                })
            }),
    {
        let ghost s = self.source@;
        let ghost before = *self;
        let ghost pos0 = self.current as int;
        loop
            invariant
                self.at(&before, before.start as int, self.current as int, before.line as int),
                before.wf(),
                s == before.source@,
                pos0 == before.current,
                pos0 <= self.current,
                run_end(s, pos0, number_class()) == run_end(s, self.current as int, number_class()),
            ensures
                run_end(s, self.current as int, number_class()) == self.current,
            decreases s.len() - self.current,
        {
            match self.peek() {
                Some(c) => {
                    if c >= '0' && c <= '9' {
                        self.advance();
                    } else if c == '.' {
                        self.advance();
                    } else {
                        break ;
                    }
                },
                None => {
                    break ;
                },
            }
        }
        self.make_token(TokenType::Number)
    }

    fn identifier(&mut self) -> (result: TokenResult<'a>)
        requires
            old(self).wf(),
        ensures
            ({
                let s = old(self).text();
                let end = run_end(s, old(self).position(), identifier_class());
                &&& final(self).at(
                    old(self),
                    old(self).lexeme_start(),
                    end,
                    old(self).line_number(),
                )
                &&& result matches Ok(token) && token@ == (TokenView {
                    kind: word_kind(s.subrange(old(self).lexeme_start(), end)),
                    lexeme: s.subrange(old(self).lexeme_start(), end),
                    line: old(self).line_number(),
                })
            }),
    {
        let ghost s = self.source@;
        let ghost before = *self;
        let ghost pos0 = self.current as int;
        loop
            invariant
                self.at(&before, before.start as int, self.current as int, before.line as int),
                before.wf(),
                s == before.source@,
                pos0 == before.current,
                pos0 <= self.current,
                run_end(s, pos0, identifier_class()) == run_end(
                    s,
                    self.current as int,
                    identifier_class(),
                ),
            ensures
                run_end(s, self.current as int, identifier_class()) == self.current,
            decreases s.len() - self.current,
        {
            match self.peek() {
                Some(c) => {
                    if char_is_alphanumeric(c) || c == '_' {
                        self.advance();
                    } else {
                        break ;
                    }
                },
                None => {
                    break ;
                },
            }
        }
        let lexeme = self.source.substring_char(self.start, self.current);
        let token_type = keyword(lexeme);
        self.make_token(token_type)
    }

    fn string(&mut self) -> (result: TokenResult<'a>)
        requires
            old(self).wf(),
            old(self).lexeme_start() + 1 == old(self).position(),
        ensures
            final(self).wf(),
            final(self).text() == old(self).text(),
            ({
                let s = old(self).text();
                let begin = old(self).position();
                let end = run_end(s, begin, string_class());
                let line = clip_line(old(self).line_number() + newlines(s, begin, end));
                if end >= s.len() {
                    result matches Err(error) && error@ == unterminated_string_message()
                } else {
                    &&& final(self).position() == end + 1
                    &&& final(self).line_number() == line
                    &&& result matches Ok(token) && token@ == (TokenView {
                        kind: TokenType::String,
                        lexeme: s.subrange(begin, end),
                        line,
                    })
                }
            }),
    {
        self.start += 1;
        let ghost s = self.source@;
        let ghost before = *self;
        let ghost pos0 = self.current as int;
        let ghost line0 = self.line as int;
        loop
            invariant
                self.at(
                    &before,
                    before.start as int,
                    self.current as int,
                    clip_line(line0 + newlines(s, pos0, self.current as int)),
                ),
                before.wf(),
                s == before.source@,
                pos0 == before.current,
                pos0 == before.start,
                line0 == before.line,
                s == old(self).text(),
                pos0 == old(self).position(),
                line0 == old(self).line_number(),
                pos0 <= self.current,
                0 <= newlines(s, pos0, self.current as int),
                run_end(s, pos0, string_class()) == run_end(s, self.current as int, string_class()),
            ensures
                run_end(s, self.current as int, string_class()) == self.current,
                self.current < s.len(),
            decreases s.len() - self.current,
        {
            match self.peek() {
                Some(c) => {
                    if c == '"' {
                        break ;
                    }
                    self.advance();
                    if c == '\n' {
                        self.next_line();
                    }
                },
                None => {
                    return Err(TokenError(String::from_str("Unterminated string.")));
                },
            }
        }
        let string_token = self.make_token(TokenType::String);
        self.advance();
        string_token
    }

    /// Reads the next token: skips whitespace, then takes the longest lexeme
    /// that the first character allows. At the end of the text the token is
    /// `Eof`, again and again.
    pub fn scan_token(&mut self) -> (result: TokenResult<'a>)
        requires
            old(self).wf(),
        ensures
            final(self).wf(),
            final(self).text() == old(self).text(),
            match token_at(old(self).text(), old(self).position(), old(self).line_number()) {
                Step::Token { token, next, line } => {
                    &&& result matches Ok(found) && found@ == token
                    &&& final(self).position() == next
                    &&& final(self).line_number() == line
                },
                Step::Failure { message } => result matches Err(error) && error@ == message,
            },
    {
        self.skip_whitespaces();
        self.start = self.current;
        proof {
            let s = self.source@;
            let start = self.current as int;
            lemma_run_end_bounds(s, old(self).position(), space_class());
            assert(s.subrange(start, start) =~= Seq::<char>::empty());
        }
        match self.advance() {
            None => self.make_token(TokenType::Eof),
            Some(c) => {
                if c >= '0' && c <= '9' {
                    self.number()
                } else if c == '(' {
                    self.make_token(TokenType::LeftParen)
                } else if c == ')' {
                    self.make_token(TokenType::RightParen)
                } else if c == '{' {
                    self.make_token(TokenType::LeftBrace)
                } else if c == '}' {
                    self.make_token(TokenType::RightBrace)
                } else if c == ',' {
                    self.make_token(TokenType::Comma)
                } else if c == '.' {
                    self.make_token(TokenType::Dot)
                } else if c == '-' {
                    self.make_token(TokenType::Minus)
                } else if c == '+' {
                    self.make_token(TokenType::Plus)
                } else if c == '*' {
                    self.make_token(TokenType::Star)
                } else if c == '/' {
                    self.make_token(TokenType::Slash)
                } else if c == ';' {
                    self.make_token(TokenType::Semicolon)
                } else if c == '!' {
                    self.make_token_if_matches('=', TokenType::BangEqual, TokenType::Bang)
                } else if c == '=' {
                    self.make_token_if_matches('=', TokenType::EqualEqual, TokenType::Equal)
                } else if c == '>' {
                    self.make_token_if_matches('=', TokenType::GreaterEqual, TokenType::Greater)
                } else if c == '<' {
                    self.make_token_if_matches('=', TokenType::LessEqual, TokenType::Less)
                } else if c == '"' {
                    self.string()
                } else if (c >= 'a' && c <= 'z') || (c >= 'A' && c <= 'Z') || c == '_' {
                    self.identifier()
                } else {
                    Err(unexpected_character(c, self.line))
                }
            },
        }
    }

    /// Reads tokens up to and including `Eof`, or up to the first failure.
    pub fn scan_tokens(&mut self) -> (result: Result<Vec<Token<'a>>, TokenError>)
        requires
            old(self).wf(),
        ensures
            final(self).wf(),
            final(self).text() == old(self).text(),
            match tokens_from(old(self).text(), old(self).position(), old(self).line_number()) {
                Ok(views) => result matches Ok(tokens) && token_views(tokens@) == views,
                Err(message) => result matches Err(error) && error@ == message,
            },
    {
        let mut tokens: Vec<Token<'a>> = Vec::new();
        let ghost s = self.source@;
        let ghost whole = tokens_from(s, self.current as int, self.line as int);
        proof {
            assert(token_views(tokens@) =~= Seq::empty());
            assert(Seq::<TokenView>::empty() + whole->Ok_0 =~= whole->Ok_0);
        }
        loop
            invariant
                self.wf(),
                self.source@ == s,
                s == old(self).text(),
                whole == tokens_from(
                    old(self).text(),
                    old(self).position(),
                    old(self).line_number(),
                ),
                whole == prepend(
                    token_views(tokens@),
                    tokens_from(s, self.current as int, self.line as int),
                ),
            decreases s.len() - self.current,
        {
            let ghost pos = self.current as int;
            let ghost line = self.line as int;
            let ghost done = token_views(tokens@);
            proof {
                lemma_token_progress(s, pos, line);
            }
            match self.scan_token() {
                Ok(token) => {
                    let ghost view = token@;
                    let at_end = token.token_type == TokenType::Eof;
                    tokens.push(token);
                    proof {
                        assert(token_views(tokens@) =~= done.push(view));
                        assert(done.push(view) =~= done + seq![view]);
                        if !at_end {
                            let rest = tokens_from(s, self.current as int, self.line as int);
                            if rest is Ok {
                                assert(done + (seq![view] + rest->Ok_0) =~= (done + seq![view])
                                    + rest->Ok_0);
                            }
                        }
                    }
                    if at_end {
                        return Ok(tokens);
                    }
                },
                Err(e) => {
                    return Err(e);
                },
            }
        }
    }
}

// ---------------------------------------------------------------------------
// Scanning punctuation
// ---------------------------------------------------------------------------
pub open spec fn eof_view(line: int) -> TokenView {
    TokenView { kind: TokenType::Eof, lexeme: Seq::empty(), line }
}

/// One token per character of `s[from..]`, each on line 1, then `Eof`.
pub open spec fn punctuation_tokens(s: Seq<char>, from: int) -> Seq<TokenView> {
    Seq::new(
        (s.len() - from + 1) as nat,
        |i: int|
            if from + i < s.len() {
                TokenView {
                    kind: punctuation_kind(s[from + i]).unwrap(),
                    lexeme: seq![s[from + i]],
                    line: 1,
                }
            } else {
                eof_view(1)
            },
    )
}

/// The empty text scans to a lone `Eof` on line 1.
pub proof fn lemma_scan_empty()
    ensures
        scan(Seq::<char>::empty()) == Ok::<Seq<TokenView>, Seq<char>>(seq![eof_view(1)]),
{
    let s = Seq::<char>::empty();
    assert(newlines(s, 0, 0) == 0);
    assert(run_end(s, 0, space_class()) == 0);
}

/// A text made of single-character punctuation only scans to one token per
/// character, followed by `Eof`, all on line 1. In particular the empty text
/// scans to a lone `Eof` on line 1.
pub proof fn lemma_scan_punctuation(s: Seq<char>, from: int)
    requires
        0 <= from <= s.len(),
        forall|i: int| 0 <= i < s.len() ==> punctuation_kind(#[trigger] s[i]) is Some,
    ensures
        tokens_from(s, from, 1) == Ok::<Seq<TokenView>, Seq<char>>(punctuation_tokens(s, from)),
        from == 0 ==> scan(s) == Ok::<Seq<TokenView>, Seq<char>>(punctuation_tokens(s, 0)),
    decreases s.len() - from,
{
    assert(newlines(s, from, from) == 0);
    if from < s.len() {
        let c = s[from];
        assert(punctuation_kind(c) is Some);
        assert(!is_space(c));
        assert(run_end(s, from, space_class()) == from);
        assert(s.subrange(from, from + 1) =~= seq![c]);
        lemma_scan_punctuation(s, from + 1);
        let first = TokenView { kind: punctuation_kind(c).unwrap(), lexeme: seq![c], line: 1 };
        assert(seq![first] + punctuation_tokens(s, from + 1) =~= punctuation_tokens(s, from));
    } else {
        assert(run_end(s, from, space_class()) == from);
        assert(seq![eof_view(1)] =~= punctuation_tokens(s, from));
    }
}

} // verus!
