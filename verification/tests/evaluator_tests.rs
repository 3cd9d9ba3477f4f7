use content_browser::evaluator::{evaluate, is_blank_text, EvaluationError, Number};

fn value_of(expression: &str) -> f64 {
    let number = evaluate(expression).unwrap();
    number.text().parse::<f64>().unwrap()
}

fn rejection_of(expression: &str) -> String {
    match evaluate(expression) {
        Err(EvaluationError::Rejected(message)) => message,
        other => panic!("not rejected by the evaluator: {:?}", other),
    }
}

#[test]
fn two_plus_two_is_four() {
    assert_eq!(evaluate("2+2"), Ok(Number::from_text(String::from("4"))));
    assert_eq!(value_of("2+2"), 4.0);
}

#[test]
fn the_value_is_not_the_expression() {
    let number = evaluate("7").unwrap();
    assert_eq!(number.text(), "7");
    let sum = evaluate("3+4").unwrap();
    assert_eq!(sum.text(), "7");
    assert_ne!(sum.text(), "3+4");
}

#[test]
fn division_by_zero_is_an_infinity() {
    assert_eq!(evaluate("1/0").unwrap().text(), "inf");
    assert_eq!(value_of("1/0"), f64::INFINITY);
    assert_eq!(evaluate("-1/0").unwrap().text(), "-inf");
    assert_eq!(evaluate("0/0").unwrap().text(), "NaN");
}

#[test]
fn sine_of_zero_is_zero() {
    assert_eq!(evaluate("sin(0)").unwrap().text(), "0");
    assert_eq!(value_of("sin(0)"), 0.0);
}

#[test]
fn operators_and_parentheses() {
    assert_eq!(value_of("3*3"), 9.0);
    assert_eq!(value_of("7-10"), -3.0);
    assert_eq!(value_of("1/2"), 0.5);
    assert_eq!(value_of("2^10"), 1024.0);
    assert_eq!(value_of("7%4"), 3.0);
    assert_eq!(value_of("(1+2)*3"), 9.0);
    assert_eq!(value_of("1+2*3"), 7.0);
    assert_eq!(value_of(" 1 +  2 "), 3.0);
    assert_eq!(value_of("-(2+3)"), -5.0);
}

#[test]
fn functions_and_constants() {
    assert_eq!(value_of("sqrt(16)"), 4.0);
    assert_eq!(value_of("abs(-3)"), 3.0);
    assert_eq!(value_of("max(1, 5, 2)"), 5.0);
    assert_eq!(value_of("min(4, 2)"), 2.0);
    assert_eq!(value_of("floor(2.7)"), 2.0);
    assert_eq!(value_of("pi"), std::f64::consts::PI);
    assert_eq!(value_of("e"), std::f64::consts::E);
}

#[test]
fn fractions_print_in_decimal() {
    assert_eq!(evaluate("1/2").unwrap().text(), "0.5");
    assert_eq!(evaluate("2.50").unwrap().text(), "2.5");
    assert_eq!(evaluate("1e3").unwrap().text(), "1000");
}

#[test]
fn empty_expression_is_blank() {
    assert_eq!(evaluate(""), Err(EvaluationError::Blank));
}

#[test]
fn expression_of_blanks_is_blank() {
    assert_eq!(evaluate(" "), Err(EvaluationError::Blank));
    assert_eq!(evaluate("   "), Err(EvaluationError::Blank));
    assert_eq!(evaluate("\t"), Err(EvaluationError::Blank));
    assert_eq!(evaluate(" \r\n\t "), Err(EvaluationError::Blank));
}

#[test]
fn blank_error_has_its_own_message() {
    assert_eq!(EvaluationError::Blank.message(), "empty expression");
    let rejected = EvaluationError::Rejected(String::from("RPN error"));
    assert_eq!(rejected.message(), "RPN error");
}

#[test]
fn unknown_identifier_is_rejected() {
    assert_eq!(rejection_of("x+1"), "Evaluation error: unknown variable `x`.");
}

#[test]
fn unknown_function_is_rejected() {
    assert_eq!(rejection_of("foo(1)"), "Evaluation error: function `foo`: Unknown function");
}

#[test]
fn malformed_syntax_is_rejected() {
    assert_eq!(rejection_of("1+"), "Parse error: Missing argument at the end of expression.");
    assert_eq!(rejection_of("(1+2"), "Parse error: Missing 1 right parenthesis.");
    assert_eq!(rejection_of("1 2"), "Parse error: Unexpected token at byte 2.");
    assert_eq!(rejection_of("2 $ 3"), "Parse error: Unexpected token at byte 2.");
}

#[test]
fn text_that_is_not_ascii_is_rejected_not_blank() {
    assert!(matches!(evaluate("\u{a0}"), Err(EvaluationError::Rejected(_))));
    assert!(matches!(evaluate("\u{e9}"), Err(EvaluationError::Rejected(_))));
    assert!(matches!(evaluate(" \u{2003} "), Err(EvaluationError::Rejected(_))));
}

#[test]
fn blank_text_is_told_from_other_text() {
    assert!(is_blank_text(""));
    assert!(is_blank_text(" \t\r\n"));
    assert!(!is_blank_text(" 1 "));
    assert!(!is_blank_text("\u{a0}"));
    assert!(!is_blank_text("   x"));
}
