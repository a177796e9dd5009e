use rlox::ast::{Expression, Statement, Value};
use rlox::parser::Parser;

fn read_float(lexeme: &str) -> Option<u64> {
    lexeme.parse::<f64>().ok().map(|value| value.to_bits())
}

#[test]
fn parsing_print_statement() {
    let source_code: &str = "print 42;";

    let mut parser = Parser::new(source_code, read_float).unwrap();
    let statements = parser.parse_source().unwrap();

    let expected_statements = vec![
        Statement::PrintStmt(Expression::Literal(Value::Number(42.0f64.to_bits())))
    ];

    assert_eq!(statements, expected_statements);
}
