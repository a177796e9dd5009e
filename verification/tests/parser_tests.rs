use rlox::ast::{Expression, Statement, Value};
use rlox::parser::Parser;
use rlox::scanner::TokenType;

fn number(value: f64) -> Value {
    Value::Number(value.to_bits())
}

fn render(bits: u64, fixed: bool) -> String {
    if fixed {
        format!("{:.2}", f64::from_bits(bits))
    } else {
        format!("{}", f64::from_bits(bits))
    }
}

const RENDER: fn(u64, bool) -> String = render;

fn read_number(lexeme: &str) -> Option<u64> {
    lexeme.parse::<f64>().ok().map(|value| value.to_bits())
}

pub struct AstPrinter {
    pub result: String,
}

impl AstPrinter {
    pub fn new() -> Self {
        Self {
            result: String::new(),
        }
    }

    pub fn visit(&mut self, expression: &Expression) {
        match expression {
            Expression::Literal(value) => match value {
                Value::Number(n) => self.result.push_str(&f64::from_bits(*n).to_string()),
                Value::String(s) => self.result.push_str(s),
                Value::Boolean(b) => self.result.push_str(&b.to_string()),
                Value::Nil => self.result.push_str("nil"),
            },
            Expression::Binary(left, operator, right) => {
                self.result.push_str("(");
                self.result.push_str(&format!("{:?}", operator));
                self.result.push_str(" ");
                self.visit(left);
                self.result.push_str(" ");
                self.visit(right);
                self.result.push_str(")");
            }
            Expression::Unary(operator, right) => {
                self.result.push_str("(");
                self.result.push_str(&format!("{:?}", operator));
                self.result.push_str(" ");
                self.visit(right);
                self.result.push_str(")");
            }
            Expression::Grouping(expression) => {
                self.result.push_str("(group ");
                self.visit(expression);
                self.result.push_str(")");
            }
        }
    }
}

fn print_ast(expression: &Expression) -> String {
    let mut printer = AstPrinter::new();
    printer.visit(expression);
    printer.result
}

fn evaluate_numeric_expression(expression: &Expression) -> f64 {
    match expression {
        Expression::Literal(value) => match value {
            Value::Number(n) => f64::from_bits(*n),
            _ => panic!("Expected number, got {:?}", value),
        },

        Expression::Binary(left, operator, right) => {
            let left = evaluate_numeric_expression(left);
            let right = evaluate_numeric_expression(right);
            match operator {
                TokenType::Plus => left + right,
                TokenType::Minus => left - right,
                TokenType::Star => left * right,
                TokenType::Slash => left / right,
                _ => panic!("Unknown operator: {:?}", operator),
            }
        }

        Expression::Unary(operator, right) => {
            let right = evaluate_numeric_expression(right);
            match operator {
                TokenType::Minus => -right,
                _ => panic!("Unknown operator: {:?}", operator),
            }
        }

        Expression::Grouping(expression) => evaluate_numeric_expression(expression),
    }
}

#[test]
fn simple_binary_expression() {
    let expression = Expression::Binary(
        Box::new(Expression::Literal(number(1.0))),
        TokenType::Plus,
        Box::new(Expression::Literal(number(2.0))),
    );

    assert_eq!(
        expression.debug(&RENDER),
        "Binary(Literal(Number(1.00)), Plus, Literal(Number(2.00)))"
    );

    assert_eq!(print_ast(&expression), "(Plus 1 2)");
}

#[test]
fn test_ast_printer() {
    let expression = Expression::Binary(
        Box::new(Expression::Literal(number(1.0))),
        TokenType::Plus,
        Box::new(Expression::Literal(number(2.0))),
    );

    let mut printer = AstPrinter::new();

    printer.visit(&expression);

    assert_eq!(printer.result, "(Plus 1 2)");
}

#[test]
fn simple_unary_expression() {
    let expression = Expression::Unary(TokenType::Minus, Box::new(Expression::Literal(number(1.0))));

    assert_eq!(expression.debug(&RENDER), "Unary(Minus, Literal(Number(1.00)))");

    assert_eq!(print_ast(&expression), "(Minus 1)");
}

#[test]
fn simple_grouping_expression() {
    let expression = Expression::Binary(
        Box::new(Expression::Grouping(Box::new(Expression::Binary(
            Box::new(Expression::Literal(number(1.0))),
            TokenType::Plus,
            Box::new(Expression::Literal(number(2.0))),
        )))),
        TokenType::Star,
        Box::new(Expression::Grouping(Box::new(Expression::Binary(
            Box::new(Expression::Literal(number(1.0))),
            TokenType::Plus,
            Box::new(Expression::Literal(number(2.0))),
        )))),
    );
    assert_eq!(expression.debug(&RENDER), "Binary(Grouping(Binary(Literal(Number(1.00)), Plus, Literal(Number(2.00)))), Star, Grouping(Binary(Literal(Number(1.00)), Plus, Literal(Number(2.00)))))");

    let mut printer = AstPrinter::new();

    printer.visit(&expression);
    
    assert_eq!(
        printer.result,
        "(Star (group (Plus 1 2)) (group (Plus 1 2)))"
    );

    assert_eq!(
        print_ast(&expression),
        "(Star (group (Plus 1 2)) (group (Plus 1 2)))"
    );
}

#[test]
fn parse_simple_expression_1() {
    let source = "1 + 2 * 3";
    let mut parser = Parser::new(source, read_number).unwrap();
    let expression = parser.parse().unwrap_or_else(|error| panic!("{}", error.message()));

    assert_eq!(
        expression.debug(&RENDER),
        "Binary(Literal(Number(1.00)), Plus, Binary(Literal(Number(2.00)), Star, Literal(Number(3.00))))"
    );
    assert_eq!(print_ast(&expression), "(Plus 1 (Star 2 3))");
}

#[test]
fn parse_simple_expression_2() {
    let source = "-((1 + 2) * (4 - 2))";
    let mut parser = Parser::new(source, read_number).unwrap();
    let expression = parser.parse().unwrap_or_else(|error| panic!("{}", error.message()));

    assert_eq!(expression.debug(&RENDER), "Unary(Minus, Grouping(Binary(Grouping(Binary(Literal(Number(1.00)), Plus, Literal(Number(2.00)))), Star, Grouping(Binary(Literal(Number(4.00)), Minus, Literal(Number(2.00)))))))");
    assert_eq!(
        print_ast(&expression),
        "(Minus (group (Star (group (Plus 1 2)) (group (Minus 4 2)))))"
    );
}

#[test]
fn parse_simple_comparison_expression() {
    let source = "1 + 2 > 3 * 4";
    let mut parser = Parser::new(source, read_number).unwrap();
    let expression = parser.parse().unwrap_or_else(|error| panic!("{}", error.message()));

    assert_eq!(expression.debug(&RENDER), "Binary(Binary(Literal(Number(1.00)), Plus, Literal(Number(2.00))), Greater, Binary(Literal(Number(3.00)), Star, Literal(Number(4.00))))");
    assert_eq!(print_ast(&expression), "(Greater (Plus 1 2) (Star 3 4))");
}

#[test]
#[should_panic(expected = "Expression expected. Line: 1")]
fn parsing_code_with_incorrect_syntax() {
    let source = "1 + 2 *";
    let mut parser = Parser::new(source, read_number).unwrap();
    let expression = parser.parse().unwrap_or_else(|error| panic!("{}", error.message()));

    assert_eq!(
        expression.debug(&RENDER),
        "Binary(Literal(Number(1.0)), Plus, Binary(Literal(Number(2.00)), Star, Literal(Number(0.00)))"
    );
    assert_eq!(print_ast(&expression), "(Plus 1 (Star 2 0))");
}

#[test]
fn parse_and_evaluate_numeric_expression() {
    let source = "-((1 + 2) * (4 - 2))";
    let mut parser = Parser::new(source, read_number).unwrap();
    let expression = parser.parse().unwrap_or_else(|error| panic!("{}", error.message()));
    let result = evaluate_numeric_expression(&expression);

    assert_eq!(result, -6.0);
}

#[test]
fn parse_string_literal()
{
    let source = r#""Hello""#;
    let mut parser = Parser::new(source, read_number).unwrap();
    let expression: Expression = parser.parse().unwrap();

    let expected_expression = Expression::Literal(Value::String("Hello".to_string()));

    assert_eq!(expression, expected_expression);
}

#[test]
fn parse_print_string_literal()
{
    let source = r#"print "Hello, World!";"#;
    let mut parser = Parser::new(source, read_number).unwrap();
    let statements = parser.parse_source().unwrap();

    let expected_statements = vec![
        Statement::PrintStmt(Expression::Literal(Value::String("Hello, World!".to_string())))
    ];

    assert_eq!(statements, expected_statements);
}

#[test]
fn parse_multiple_statements() {
    let source = r#"print 1; print 2; print "Hello";"#;
    let mut parser = Parser::new(source, read_number).unwrap();
    let statements = parser.parse_source().unwrap();

    let expected_statements = vec![
        Statement::PrintStmt(Expression::Literal(number(1.0))),
        Statement::PrintStmt(Expression::Literal(number(2.0))),
        Statement::PrintStmt(Expression::Literal(Value::String("Hello".to_string()))),
    ];

    assert_eq!(statements, expected_statements);
}
