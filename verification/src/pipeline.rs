//! From source text to output: scan, parse, then execute.
use crate::interpreter::{outputs, Console, Interpreter};
use crate::number::Operation;
use crate::parser::{is_number_reader, parse_statements, reader_of, ParseError, Parser};
use crate::scanner::{scan, TokenError};
use vstd::prelude::*;

verus! {

/// Why a source text was not run.
#[derive(Debug, PartialEq)]
pub enum RunError {
    Scan(TokenError),
    Parse(ParseError),
}

/// What running `source` makes the console receive: the outputs of its statements, or
/// the reason why nothing was run.
pub open spec fn run_outcome(
    source: Seq<char>,
    numbers: spec_fn(Seq<char>) -> Option<u64>,
    arithmetic: spec_fn(Operation, u64, u64) -> u64,
    texts: spec_fn(u64, bool) -> Seq<char>,
) -> Result<Seq<Seq<char>>, Result<Seq<char>, ParseError>> {
    match scan(source) {
        Err(message) => Err(Ok(message)),
        Ok(tokens) => match parse_statements(tokens, 0, numbers) {
            Err(error) => Err(Err(error)),
            Ok(statements) => Ok(outputs(statements, arithmetic, texts)),
        },
    }
}

/// Scans and parses `source` and, if both succeed, executes its statements
/// in order. A text that does not scan or parse runs no statement at all.
pub fn run<C: Console, A: Fn(Operation, u64, u64) -> u64, R: Fn(u64, bool) -> String, P: Fn(
    &str,
) -> Option<u64>>(interpreter: &mut Interpreter<C, A, R>, source: &str, read_number: P) -> (result:
    Result<(), RunError>)
    requires
        old(interpreter).wf(),
        is_number_reader(read_number),
    ensures
        final(interpreter).wf(),
        final(interpreter).operations() == old(interpreter).operations(),
        final(interpreter).numbers() == old(interpreter).numbers(),
        match run_outcome(
            source@,
            reader_of(read_number),
            old(interpreter).operations(),
            old(interpreter).numbers(),
        ) {
            Ok(written) => result is Ok && final(interpreter).sink().received() == old(interpreter).sink().received()
                + written,
            Err(Ok(message)) => result matches Err(RunError::Scan(error)) && error@ == message
                && final(interpreter).sink().received() == old(interpreter).sink().received(),
            Err(Err(error)) => result matches Err(RunError::Parse(found)) && found == error
                && final(interpreter).sink().received() == old(interpreter).sink().received(),
        },
{
    let mut parser = match Parser::new(source, read_number) {
        Ok(parser) => parser,
        Err(e) => {
            return Err(RunError::Scan(e));
        },
    };
    let statements = match parser.parse_source() {
        Ok(statements) => statements,
        Err(e) => {
            return Err(RunError::Parse(e));
        },
    };
    interpreter.interpret_statements(&statements);
    Ok(())
}

} // verus!
