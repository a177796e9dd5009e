use rlox::ast::{Expression, Value};
use rlox::interpreter::{is_equal, is_truthy, Console, Interpreter, Transcript};
use rlox::number::{equal, less, less_or_equal, nan, negate, Operation};
use rlox::parser::{ParseError, Parser};
use rlox::scanner::{char_is_whitespace, keyword, Scanner, Token, TokenError, TokenType};

fn float_arithmetic(operation: Operation, a: u64, b: u64) -> u64 {
    let (a, b) = (f64::from_bits(a), f64::from_bits(b));
    let result = match operation {
        Operation::Add => a + b,
        Operation::Subtract => a - b,
        Operation::Multiply => a * b,
        Operation::Divide => a / b,
    };
    result.to_bits()
}

fn float_text(bits: u64, fixed: bool) -> String {
    if fixed {
        format!("{:.2}", f64::from_bits(bits))
    } else {
        format!("{}", f64::from_bits(bits))
    }
}

fn float_bits(lexeme: &str) -> Option<u64> {
    lexeme.parse::<f64>().ok().map(|value| value.to_bits())
}

type Floats = Interpreter<Transcript, fn(Operation, u64, u64) -> u64, fn(u64, bool) -> String>;

fn interpreter() -> Floats {
    Interpreter::new(Transcript::new(), float_arithmetic, float_text)
}

fn expression(source: &str) -> Expression {
    Parser::new(source, float_bits).unwrap().parse().unwrap()
}

fn value(source: &str) -> Value {
    interpreter().evaluate(&expression(source)).unwrap()
}

fn failure(source: &str) -> String {
    interpreter().evaluate(&expression(source)).unwrap_err().to_string()
}

fn run(source: &str) -> String {
    let statements = Parser::new(source, float_bits).unwrap().parse_source().unwrap();
    let mut interpreter = interpreter();
    interpreter.interpret_statements(&statements);
    interpreter.console().contents()
}

fn parse_failure(source: &str) -> ParseError {
    Parser::new(source, float_bits).unwrap().parse_source().unwrap_err()
}

fn kinds(source: &str) -> Vec<TokenType> {
    Scanner::new(source).scan_tokens().unwrap().iter().map(|token| token.token_type).collect()
}

fn num(x: f64) -> Value {
    Value::Number(x.to_bits())
}

#[test]
fn precedence_of_star_over_plus() {
    let parsed = expression("1 + 2 * 3");
    assert_eq!(
        parsed,
        Expression::Binary(
            Box::new(Expression::Literal(num(1.0))),
            TokenType::Plus,
            Box::new(Expression::Binary(
                Box::new(Expression::Literal(num(2.0))),
                TokenType::Star,
                Box::new(Expression::Literal(num(3.0))),
            )),
        )
    );
    assert_eq!(value("1 + 2 * 3"), num(7.0));
}

#[test]
fn negated_grouping() {
    assert_eq!(value("-((1 + 2) * (4 - 2))"), num(-6.0));
}

#[test]
fn comparison_binds_looser_than_arithmetic() {
    assert_eq!(value("1 + 2 > 3 * 4"), Value::Boolean(false));
    assert_eq!(value("3 * 4 > 1 + 2"), Value::Boolean(true));
}

#[test]
fn string_concatenation() {
    assert_eq!(
        value("\"Hello\" + \" \" + \"World\""),
        Value::String("Hello World".to_string())
    );
}

#[test]
fn binary_operators_associate_to_the_left() {
    assert_eq!(value("10 - 4 - 3"), num(3.0));
    assert_eq!(value("16 / 4 / 2"), num(2.0));
    assert_eq!(value("1 < 2 == 2 > 1"), Value::Boolean(true));
    assert_eq!(value("1 == 1 != 2 > 3"), Value::Boolean(true));
}

#[test]
fn unary_operators_nest() {
    assert_eq!(value("--3"), num(3.0));
    assert_eq!(value("!!\"x\""), Value::Boolean(true));
    assert_eq!(value("!-1"), Value::Boolean(false));
    assert_eq!(value("- 2 * 3"), num(-6.0));
}

#[test]
fn equality_stays_within_a_variant() {
    let interpreter = interpreter();
    let equal_values = |left: Value, right: Value| {
        interpreter
            .apply_binary(TokenType::EqualEqual, left, right)
            .unwrap()
    };
    assert_eq!(equal_values(Value::Nil, Value::Nil), Value::Boolean(true));
    assert_eq!(equal_values(Value::Boolean(true), num(1.0)), Value::Boolean(false));
    assert_eq!(equal_values(Value::String("1".to_string()), num(1.0)), Value::Boolean(false));
    assert_eq!(equal_values(Value::Nil, Value::Boolean(false)), Value::Boolean(false));
    assert_eq!(equal_values(num(0.0), num(-0.0)), Value::Boolean(true));
    assert_eq!(equal_values(num(f64::NAN), num(f64::NAN)), Value::Boolean(false));
    assert!(is_equal(&Value::String("a".to_string()), &Value::String("a".to_string())));
    assert!(!is_equal(&Value::String("a".to_string()), &Value::String("b".to_string())));
    assert_eq!(
        interpreter.apply_binary(TokenType::BangEqual, Value::Nil, Value::Nil).unwrap(),
        Value::Boolean(false)
    );
}

#[test]
fn unary_minus_on_a_string_names_operator_and_value() {
    let message = failure("-\"Hello\"");
    assert_eq!(message, "Unary operator - is not defined for String(Hello)");
    assert_eq!(failure("-\"Hello\""), message);
    assert_eq!(failure("-(1 > 2)"), "Unary operator - is not defined for Boolean(false)");
}

#[test]
fn numeric_operators_name_themselves_in_errors() {
    assert_eq!(
        failure("1 * \"a\""),
        "Binary operator Star is not defined for Number(1.00) and String(a)"
    );
    assert_eq!(
        failure("\"a\" / 2"),
        "Binary operator Slash is not defined for String(a) and Number(2.00)"
    );
    assert_eq!(
        failure("(1 < 2) >= 2.5"),
        "Binary operator GreaterEqual is not defined for Boolean(true) and Number(2.50)"
    );
    assert_eq!(
        failure("\"a\" < \"b\""),
        "Binary operator Less is not defined for String(a) and String(b)"
    );
    assert_eq!(
        failure("1 + \"a\""),
        "Operators must be two numebrs or two strings - found Number(1.00) and String(a) instead"
    );
}

#[test]
fn a_failing_operand_fails_the_whole_expression() {
    assert_eq!(
        failure("1 + (2 - \"x\") * 3"),
        "Binary operator Minus is not defined for Number(2.00) and String(x)"
    );
    assert_eq!(failure("!(-\"x\")"), "Unary operator - is not defined for String(x)");
}

#[test]
fn print_statements_write_without_separators() {
    assert_eq!(run("print 3.14 + 2.71; print \"Hello\";"), "5.85Hello");
}

#[test]
fn a_failing_statement_does_not_stop_the_next_one() {
    assert_eq!(
        run("print -\"a\"; 1 + 1; -\"b\"; print 2;"),
        "ERROR: Unary operator - is not defined for String(a)ERROR: Unary operator - is not defined for String(b)2"
    );
}

#[test]
fn evaluating_twice_gives_the_same_value() {
    let interpreter = interpreter();
    let tree = expression("(1 + 2) * 3 / 7 - -4");
    let first = interpreter.evaluate(&tree).unwrap();
    let second = interpreter.evaluate(&tree).unwrap();
    assert_eq!(first, second);
    let failing = expression("1 - \"a\"");
    assert_eq!(
        interpreter.evaluate(&failing).unwrap_err().to_string(),
        interpreter.evaluate(&failing).unwrap_err().to_string()
    );
}

#[test]
fn truthiness() {
    assert!(!is_truthy(&Value::Nil));
    assert!(!is_truthy(&Value::Boolean(false)));
    assert!(is_truthy(&Value::Boolean(true)));
    assert!(!is_truthy(&Value::String(String::new())));
    assert!(is_truthy(&Value::String("a".to_string())));
    assert!(is_truthy(&num(0.0)));
    assert_eq!(value("!\"\""), Value::Boolean(true));
    assert_eq!(value("!0"), Value::Boolean(false));
}

#[test]
fn division_follows_the_floating_point_rules() {
    assert_eq!(run("print 1 / 0; print -1 / 0; print (9 / 3) * ((5 - 2) / 2);"), "inf-inf4.5");
    assert_eq!(value("0 / 0 == 0 / 0"), Value::Boolean(false));
    assert_eq!(value("0 / 0 < 1"), Value::Boolean(false));
    assert_eq!(value("0 / 0 >= 1"), Value::Boolean(false));
}

#[test]
fn values_render_plain_and_tagged() {
    let text: fn(u64, bool) -> String = float_text;
    assert_eq!(num(2.5).display(&text), "2.5");
    assert_eq!(num(2.5).debug(&text), "Number(2.50)");
    assert_eq!(Value::String("x".to_string()).display(&text), "x");
    assert_eq!(Value::String("x".to_string()).debug(&text), "String(x)");
    assert_eq!(Value::Boolean(true).display(&text), "true");
    assert_eq!(Value::Boolean(false).debug(&text), "Boolean(false)");
    assert_eq!(Value::Nil.display(&text), "nil");
    assert_eq!(Value::Nil.debug(&text), "nil");
    let error = Value::Boolean(true).as_number().unwrap_err();
    assert_eq!(error.message, "Double expected - found Boolean(true) instead");
    assert_eq!(error.current_value, "Boolean(true)");
    assert_eq!(num(1.5).as_number().unwrap(), 1.5f64.to_bits());
    assert_eq!(Value::Nil.as_boolean(), None);
    assert_eq!(Value::Nil.as_string(), None);
}

#[test]
fn a_lone_expression_is_written_tagged() {
    let mut interpreter = interpreter();
    interpreter.interpret(&expression("\"a\" + \"b\""));
    interpreter.interpret(&expression("1 == 1"));
    assert_eq!(interpreter.console().contents(), "String(ab)Boolean(true)");
}

#[test]
fn number_comparisons_agree_with_floating_point() {
    let samples = [
        0.0,
        -0.0,
        1.0,
        -1.0,
        0.1,
        -0.1,
        1.5e300,
        -1.5e300,
        5e-324,
        -5e-324,
        f64::MAX,
        f64::MIN,
        f64::INFINITY,
        f64::NEG_INFINITY,
        f64::NAN,
        -f64::NAN,
    ];
    for a in samples {
        assert_eq!(nan(a.to_bits()), a.is_nan());
        assert_eq!(negate(a.to_bits()), (-a).to_bits());
        for b in samples {
            assert_eq!(equal(a.to_bits(), b.to_bits()), a == b, "{} == {}", a, b);
            assert_eq!(less(a.to_bits(), b.to_bits()), a < b, "{} < {}", a, b);
            assert_eq!(less_or_equal(a.to_bits(), b.to_bits()), a <= b, "{} <= {}", a, b);
        }
    }
}

#[test]
fn parse_errors_and_their_lines() {
    assert_eq!(parse_failure("print 1"), ParseError::UnterminatedStatement { printing: true, line: 1 });
    assert_eq!(
        parse_failure("1 + 2;\n3 +\n4"),
        ParseError::UnterminatedStatement { printing: false, line: 3 }
    );
    assert_eq!(parse_failure("print (1 + 2;"), ParseError::UnclosedGrouping { line: 1 });
    assert_eq!(parse_failure("\n\nprint * 2;"), ParseError::ExpressionExpected { line: 3 });
    assert_eq!(parse_failure("print 1.2.3;"), ParseError::MalformedNumber { line: 1 });
    assert_eq!(parse_failure("print;"), ParseError::ExpressionExpected { line: 1 });
    assert_eq!(parse_failure("print 1; print"), ParseError::ExpressionExpected { line: 1 });
    assert_eq!(parse_failure("print (1 + 2;").line(), 1);
    assert_eq!(parse_failure("print (1 + 2;").message(), "Expect ')' after expression.");
    assert_eq!(parse_failure("print 1").message(), "Expect ';' after value.");
    assert_eq!(parse_failure("1").message(), "Expect ';' after expression.");
    assert_eq!(parse_failure("print 1.2.3;").message(), "Malformed number.");
    assert_eq!(
        parse_failure("1;\n2;\n3;\n4;\n5;\n6;\n7;\n8;\n9;\n10;\n11;\n+").message(),
        "Expression expected. Line: 12"
    );
}

#[test]
fn a_scan_failure_stops_the_parser() {
    let result = Parser::new("print 1 @ 2;", float_bits);
    assert_eq!(
        result.err(),
        Some(TokenError("Unexpected character: @; Line: 1".to_string()))
    );
}

#[test]
fn an_empty_source_has_no_statements() {
    assert_eq!(run(""), "");
    assert_eq!(run("  \n\t "), "");
}

#[test]
fn unexpected_characters_report_their_line() {
    let error = Scanner::new("1 +\n\n  # 2").scan_tokens().unwrap_err();
    assert_eq!(error, TokenError("Unexpected character: #; Line: 3".to_string()));
    let error = Scanner::new("\u{e9}").scan_tokens().unwrap_err();
    assert_eq!(error, TokenError("Unexpected character: \u{e9}; Line: 1".to_string()));
}

#[test]
fn two_character_operators_win_over_their_prefix() {
    assert_eq!(
        kinds("!= ! == = >= > <= < =="),
        vec![
            TokenType::BangEqual,
            TokenType::Bang,
            TokenType::EqualEqual,
            TokenType::Equal,
            TokenType::GreaterEqual,
            TokenType::Greater,
            TokenType::LessEqual,
            TokenType::Less,
            TokenType::EqualEqual,
            TokenType::Eof,
        ]
    );
    assert_eq!(
        kinds("==="),
        vec![TokenType::EqualEqual, TokenType::Equal, TokenType::Eof]
    );
    assert_eq!(kinds("!"), vec![TokenType::Bang, TokenType::Eof]);
}

#[test]
fn a_number_takes_every_dot_that_follows() {
    let tokens = Scanner::new("1.2.3 4.").scan_tokens().unwrap();
    assert_eq!(
        tokens,
        vec![
            Token { token_type: TokenType::Number, lexeme: "1.2.3", line: 1 },
            Token { token_type: TokenType::Number, lexeme: "4.", line: 1 },
            Token { token_type: TokenType::Eof, lexeme: "", line: 1 },
        ]
    );
}

#[test]
fn strings_may_span_lines_and_hold_any_character() {
    let tokens = Scanner::new("\"a\nb\u{e9}\" x").scan_tokens().unwrap();
    assert_eq!(
        tokens,
        vec![
            Token { token_type: TokenType::String, lexeme: "a\nb\u{e9}", line: 2 },
            Token { token_type: TokenType::Identifier, lexeme: "x", line: 2 },
            Token { token_type: TokenType::Eof, lexeme: "", line: 2 },
        ]
    );
}

#[test]
fn identifiers_take_letters_digits_and_underscores() {
    let tokens = Scanner::new("_a1 b\u{e9}2 printer print").scan_tokens().unwrap();
    assert_eq!(
        tokens,
        vec![
            Token { token_type: TokenType::Identifier, lexeme: "_a1", line: 1 },
            Token { token_type: TokenType::Identifier, lexeme: "b\u{e9}2", line: 1 },
            Token { token_type: TokenType::Identifier, lexeme: "printer", line: 1 },
            Token { token_type: TokenType::Print, lexeme: "print", line: 1 },
            Token { token_type: TokenType::Eof, lexeme: "", line: 1 },
        ]
    );
    assert_eq!(keyword("while"), TokenType::While);
    assert_eq!(keyword("While"), TokenType::Identifier);
    assert_eq!(TokenType::GreaterEqual.name(), "GreaterEqual");
}

#[test]
fn whitespace_is_what_unicode_calls_white_space() {
    let spaces = [
        '\u{9}', '\u{a}', '\u{b}', '\u{c}', '\u{d}', ' ', '\u{85}', '\u{a0}', '\u{1680}',
        '\u{2000}', '\u{2001}', '\u{2002}', '\u{2003}', '\u{2004}', '\u{2005}', '\u{2006}',
        '\u{2007}', '\u{2008}', '\u{2009}', '\u{200a}', '\u{2028}', '\u{2029}', '\u{202f}',
        '\u{205f}', '\u{3000}',
    ];
    let mut code: u32 = 0;
    while code <= 0x10ffff {
        if let Some(c) = char::from_u32(code) {
            assert_eq!(char_is_whitespace(c), spaces.contains(&c), "U+{:04X}", code);
            assert_eq!(char_is_whitespace(c), c.is_whitespace(), "U+{:04X}", code);
        }
        code += 1;
    }
    let mut text = String::new();
    for c in spaces {
        text.push(c);
    }
    text.push(';');
    let tokens = Scanner::new(&text).scan_tokens().unwrap();
    assert_eq!(tokens.len(), 2);
    assert_eq!(tokens[0].token_type, TokenType::Semicolon);
    assert_eq!(tokens[0].line, 2);
}

#[test]
fn scanning_token_by_token_repeats_eof_at_the_end() {
    let mut scanner = Scanner::new("( ");
    assert_eq!(scanner.scan_token().unwrap().token_type, TokenType::LeftParen);
    assert_eq!(scanner.scan_token().unwrap().token_type, TokenType::Eof);
    assert_eq!(scanner.scan_token().unwrap().token_type, TokenType::Eof);
}

#[test]
fn the_transcript_keeps_every_write() {
    let mut transcript = Transcript::new();
    transcript.write("a");
    transcript.write("");
    transcript.write("bc");
    assert_eq!(transcript.entries, vec!["a".to_string(), String::new(), "bc".to_string()]);
    assert_eq!(transcript.contents(), "abc");
}

#[test]
fn a_value_error_becomes_an_interpreter_error() {
    let error = Value::Nil.as_number().unwrap_err();
    let converted = rlox::interpreter::InterpreterError::from(error);
    assert_eq!(converted.to_string(), "Double expected - found nil instead");
    let error = Value::String("x".to_string()).as_number().unwrap_err();
    assert_eq!(error.message, "Double expected - found String(x) instead");
}

#[test]
fn running_a_source_text_from_end_to_end() {
    let mut interpreter = interpreter();
    let result = rlox::pipeline::run(
        &mut interpreter,
        "print 3.14 + 2.71; print \"Hello\";",
        float_bits,
    );
    assert_eq!(result, Ok(()));
    assert_eq!(interpreter.console().contents(), "5.85Hello");
    assert_eq!(interpreter.into_console().entries, vec!["5.85".to_string(), "Hello".to_string()]);
}

#[test]
fn a_text_that_does_not_scan_or_parse_runs_nothing() {
    let mut interpreter = interpreter();
    let result = rlox::pipeline::run(&mut interpreter, "print 1; print \"open", float_bits);
    assert_eq!(
        result,
        Err(rlox::pipeline::RunError::Scan(TokenError("Unterminated string.".to_string())))
    );
    let result = rlox::pipeline::run(&mut interpreter, "print 1; print 2", float_bits);
    assert_eq!(
        result,
        Err(rlox::pipeline::RunError::Parse(ParseError::UnterminatedStatement {
            printing: true,
            line: 1
        }))
    );
    assert_eq!(interpreter.console().contents(), "");
}

#[test]
fn a_failing_print_writes_its_error_and_the_next_still_writes() {
    let statements = vec![
        rlox::ast::Statement::PrintStmt(Expression::Unary(
            TokenType::Minus,
            Box::new(Expression::Literal(Value::String("a".to_string()))),
        )),
        rlox::ast::Statement::PrintStmt(Expression::Literal(Value::String("ok".to_string()))),
    ];
    let mut interpreter = interpreter();
    interpreter.interpret_statements(&statements);
    let console = interpreter.into_console();
    assert_eq!(console.entries.len(), 2);
    assert!(console.entries[0].starts_with("ERROR: "));
    assert!(console.entries[0].contains("Unary operator - is not defined for String(a)"));
    assert_eq!(console.entries[1], "ok");
}

#[test]
fn a_new_interpreter_has_written_nothing_and_writes_to_its_console() {
    let mut console = Transcript::new();
    console.write("before");
    let mut interpreter = Interpreter::new(
        console,
        float_arithmetic as fn(Operation, u64, u64) -> u64,
        float_text as fn(u64, bool) -> String,
    );
    assert_eq!(interpreter.console().entries, vec!["before".to_string()]);
    interpreter.interpret_statements(&vec![rlox::ast::Statement::PrintStmt(Expression::Literal(
        Value::String("x".to_string()),
    ))]);
    assert_eq!(interpreter.into_console().entries, vec!["before".to_string(), "x".to_string()]);
}

#[test]
fn an_empty_document_can_be_drawn() {
    let doc = rlox::doc::Doc::from_lines(Vec::new());
    let viewer = rlox::text_viewer::TextViewBuilder::new().build(Some(doc));
    assert_eq!(viewer.visible_lines(), (0, 0));
    assert!(!viewer.is_settled());
    assert_eq!(viewer.doc().file_name(), None);
    let named = rlox::doc::Doc::from_file_lines(vec!["a".to_string()], "n.txt".to_string());
    let viewer = rlox::text_viewer::TextViewBuilder::new().build(Some(named));
    assert_eq!(viewer.doc().file_name(), Some(&"n.txt".to_string()));
    let viewer = rlox::text_viewer::TextViewBuilder::new().build(None);
    assert_eq!(viewer.doc().file_name(), None);
}
