//! Tests for the calculation pipeline, the error taxonomy, integer parsing
//! and the diagnostic chain walker.

use error_handling::calc::CalcValue;
use error_handling::calc::CalculationError;
use error_handling::calc::error_chain;
use error_handling::calc::from_parse_failure;
use error_handling::calc::parse_and_double;
use error_handling::calc::perform_calculation;
use error_handling::parse::IntParseError;
use error_handling::parse::add_numbers;
use error_handling::parse::parse_number;

fn as_f64(v: &CalcValue) -> f64 {
    match v {
        CalcValue::Exact(n) => *n as f64,
        CalcValue::Quotient(a, b) => *a as f64 / *b as f64,
        CalcValue::SquareRoot(a) => (*a as f64).sqrt(),
    }
}

#[test]
fn test_perform_calculation() {
    assert!(perform_calculation("10", "2", "add").is_ok());
    assert!(perform_calculation("10", "0", "divide").is_err());
    assert!(perform_calculation("not_a_number", "5", "add").is_err());
}

#[test]
fn test_parse_number() {
    assert_eq!(parse_number("42"), Ok(42));
    assert!(parse_number("not_a_number").is_err());
}

#[test]
fn test_add_numbers() {
    assert_eq!(add_numbers("10", "20"), Ok(30));
    assert!(add_numbers("10", "not_a_number").is_err());
    assert!(add_numbers("not_a_number", "20").is_err());
}

#[test]
fn divide_scenario_exact() {
    let r = perform_calculation("10", "2", "divide");
    assert_eq!(r, Ok(CalcValue::Quotient(10, 2)));
    assert_eq!(as_f64(&r.unwrap()), 5.0);
}

#[test]
fn divide_by_zero_scenario() {
    assert_eq!(
        perform_calculation("10", "0", "divide"),
        Err(CalculationError::DivisionByZero)
    );
    assert_eq!(
        perform_calculation("-123", "0", "divide"),
        Err(CalculationError::DivisionByZero)
    );
}

#[test]
fn sqrt_guard_scenario() {
    assert_eq!(
        perform_calculation("-4", "0", "sqrt"),
        Err(CalculationError::NegativeSquareRoot)
    );
    assert_eq!(
        perform_calculation("-1", "7", "sqrt"),
        Err(CalculationError::NegativeSquareRoot)
    );
}

#[test]
fn sqrt_ignores_second_operand() {
    let r = perform_calculation("9", "12345", "sqrt");
    assert_eq!(r, Ok(CalcValue::SquareRoot(9)));
    assert_eq!(as_f64(&r.unwrap()), 3.0);
}

#[test]
fn parse_failure_scenario() {
    assert_eq!(
        perform_calculation("not_a_number", "5", "add"),
        Err(CalculationError::ParseError(IntParseError::InvalidDigit))
    );
}

#[test]
fn add_scenario_exact() {
    let r = perform_calculation("10", "5", "add");
    assert_eq!(r, Ok(CalcValue::Exact(15)));
    assert_eq!(as_f64(&r.unwrap()), 15.0);
}

#[test]
fn arithmetic_is_exact_integer_arithmetic() {
    assert_eq!(
        perform_calculation("7", "8", "multiply"),
        Ok(CalcValue::Exact(56))
    );
    assert_eq!(
        perform_calculation("3", "10", "subtract"),
        Ok(CalcValue::Exact(-7))
    );
    assert_eq!(
        perform_calculation("-2147483648", "-2147483648", "add"),
        Ok(CalcValue::Exact(-4294967296))
    );
    assert_eq!(
        perform_calculation("2147483647", "2147483647", "multiply"),
        Ok(CalcValue::Exact(2147483647i64 * 2147483647i64))
    );
}

#[test]
fn unknown_operation_names_the_symbol() {
    assert_eq!(
        perform_calculation("10", "5", "%"),
        Err(CalculationError::InvalidInput(
            "Unknown operation: %".to_string()
        ))
    );
    let e = perform_calculation("1", "2", "power").unwrap_err();
    assert_eq!(
        e.to_display_string(),
        "Invalid input: Unknown operation: power"
    );
}

#[test]
fn second_operand_parse_failure_propagates() {
    assert_eq!(
        perform_calculation("10", "x", "add"),
        Err(CalculationError::ParseError(IntParseError::InvalidDigit))
    );
}

#[test]
fn parse_number_error_kinds() {
    assert_eq!(parse_number(""), Err(IntParseError::Empty));
    assert_eq!(parse_number("+"), Err(IntParseError::InvalidDigit));
    assert_eq!(parse_number("-"), Err(IntParseError::InvalidDigit));
    assert_eq!(parse_number("12a"), Err(IntParseError::InvalidDigit));
    assert_eq!(parse_number("2147483648"), Err(IntParseError::PosOverflow));
    assert_eq!(parse_number("-2147483649"), Err(IntParseError::NegOverflow));
    assert_eq!(
        parse_number("99999999999999999999x"),
        Err(IntParseError::PosOverflow)
    );
}

#[test]
fn parse_number_extremes_and_signs() {
    assert_eq!(parse_number("2147483647"), Ok(i32::MAX));
    assert_eq!(parse_number("-2147483648"), Ok(i32::MIN));
    assert_eq!(parse_number("+42"), Ok(42));
    assert_eq!(parse_number("-0"), Ok(0));
    assert_eq!(parse_number("007"), Ok(7));
}

#[test]
fn parse_error_display_texts() {
    assert_eq!(
        IntParseError::Empty.to_display_string(),
        "cannot parse integer from empty string"
    );
    assert_eq!(
        IntParseError::InvalidDigit.to_display_string(),
        "invalid digit found in string"
    );
    assert_eq!(
        IntParseError::PosOverflow.to_display_string(),
        "number too large to fit in target type"
    );
    assert_eq!(
        IntParseError::NegOverflow.to_display_string(),
        "number too small to fit in target type"
    );
}

#[test]
fn taxonomy_display_texts() {
    assert_eq!(
        CalculationError::DivisionByZero.to_display_string(),
        "Cannot divide by zero"
    );
    assert_eq!(
        CalculationError::NegativeSquareRoot.to_display_string(),
        "Cannot calculate square root of negative number"
    );
    assert_eq!(
        CalculationError::ParseError(IntParseError::Empty).to_display_string(),
        "Parse error: cannot parse integer from empty string"
    );
    assert_eq!(
        CalculationError::InvalidInput("bad".to_string()).to_display_string(),
        "Invalid input: bad"
    );
}

#[test]
fn display_is_idempotent() {
    let e = perform_calculation("oops", "5", "add").unwrap_err();
    let first = e.to_display_string();
    let second = e.to_display_string();
    assert_eq!(first, second);
    let d = CalculationError::DivisionByZero;
    assert_eq!(d.to_display_string(), d.to_display_string());
}

#[test]
fn conversion_preserves_the_cause() {
    let lifted = from_parse_failure(IntParseError::NegOverflow);
    assert_eq!(
        lifted,
        CalculationError::ParseError(IntParseError::NegOverflow)
    );
    assert_eq!(lifted.cause(), Some(&IntParseError::NegOverflow));
    assert_eq!(CalculationError::DivisionByZero.cause(), None);
    assert_eq!(
        CalculationError::InvalidInput("x".to_string()).cause(),
        None
    );
}

#[test]
fn chain_walker_on_parse_failure_yields_two_lines() {
    let e = perform_calculation("not_a_number", "5", "add").unwrap_err();
    let trace = error_chain(&e);
    assert_eq!(trace.len(), 2);
    assert_eq!(trace[0], "Parse error: invalid digit found in string");
    assert_eq!(trace[1], "invalid digit found in string");
}

#[test]
fn chain_walker_on_terminal_error_yields_one_line() {
    let trace = error_chain(&CalculationError::DivisionByZero);
    assert_eq!(trace, vec!["Cannot divide by zero".to_string()]);
    let trace2 = error_chain(&CalculationError::InvalidInput(
        "Unknown operation: ^".to_string(),
    ));
    assert_eq!(
        trace2,
        vec!["Invalid input: Unknown operation: ^".to_string()]
    );
}

#[test]
fn parse_and_double_doubles_or_lifts() {
    assert_eq!(parse_and_double("42"), Ok(84));
    assert_eq!(parse_and_double("-21"), Ok(-42));
    assert_eq!(
        parse_and_double("not_a_number"),
        Err(CalculationError::ParseError(IntParseError::InvalidDigit))
    );
    assert_eq!(
        parse_and_double(""),
        Err(CalculationError::ParseError(IntParseError::Empty))
    );
}
