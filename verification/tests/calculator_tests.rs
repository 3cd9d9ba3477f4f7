use content_browser::calculator::{format_line, Calculator};
use content_browser::evaluator::{EvaluationError, Number};

fn number(text: &str) -> Number {
    Number::from_text(String::from(text))
}

#[test]
fn new_calculator_is_empty() {
    let calculator = Calculator::new();
    assert_eq!(calculator.input(), "");
    assert!(calculator.transcript().is_empty());
    assert_eq!(calculator.text(), "");
}

#[test]
fn commit_appends_one_line_and_keeps_the_input() {
    let mut calculator = Calculator::new();
    calculator.set_input(String::from("3*3"));
    let committed = calculator.commit_expression("3*3");
    assert_eq!(committed, Some(Ok(number("9"))));
    assert_eq!(calculator.transcript(), &vec![String::from("3*3 = 9")]);
    assert_eq!(calculator.text(), "3*3 = 9\n");
    assert_eq!(calculator.input(), "3*3");
}

#[test]
fn commit_of_the_input_buffer_keeps_its_text() {
    let mut calculator = Calculator::new();
    calculator.set_input(String::from("2+2"));
    assert_eq!(calculator.commit(), Some(Ok(number("4"))));
    assert_eq!(calculator.input(), "2+2");
    assert_eq!(calculator.commit(), Some(Ok(number("4"))));
    assert_eq!(calculator.transcript(), &vec![String::from("2+2 = 4"), String::from("2+2 = 4")]);
}

#[test]
fn commit_of_an_empty_buffer_does_nothing() {
    let mut calculator = Calculator::new();
    assert_eq!(calculator.commit(), None);
    assert_eq!(calculator.commit_expression(""), None);
    assert!(calculator.transcript().is_empty());
    assert_eq!(calculator.input(), "");
}

#[test]
fn failed_evaluation_is_reported_in_the_transcript() {
    let mut calculator = Calculator::new();
    let committed = calculator.commit_expression("1+");
    let message = "Parse error: Missing argument at the end of expression.";
    assert_eq!(committed, Some(Err(EvaluationError::Rejected(String::from(message)))));
    assert_eq!(
        calculator.text(),
        "Error in 1+ : Parse error: Missing argument at the end of expression.\n"
    );
}

#[test]
fn commit_of_blanks_is_reported_in_the_transcript() {
    let mut calculator = Calculator::new();
    assert_eq!(calculator.commit_expression("  "), Some(Err(EvaluationError::Blank)));
    assert_eq!(calculator.transcript(), &vec![String::from("Error in    : empty expression")]);
}

#[test]
fn lines_accumulate_in_commit_order() {
    let mut calculator = Calculator::new();
    calculator.commit_expression("1+1");
    calculator.commit_expression("y");
    calculator.commit_expression("1/0");
    assert_eq!(
        calculator.text(),
        "1+1 = 2\nError in y : Evaluation error: unknown variable `y`.\n1/0 = inf\n"
    );
    assert_eq!(calculator.transcript().len(), 3);
}

#[test]
fn record_appends_the_line_for_the_given_outcome() {
    let mut calculator = Calculator::new();
    calculator.set_input(String::from("draft"));
    calculator.record("6*7", &Ok(number("42")));
    calculator.record("6*", &Err(EvaluationError::Rejected(String::from("no"))));
    calculator.record(" ", &Err(EvaluationError::Blank));
    assert_eq!(
        calculator.transcript(),
        &vec![
            String::from("6*7 = 42"),
            String::from("Error in 6* : no"),
            String::from("Error in   : empty expression"),
        ]
    );
    assert_eq!(calculator.input(), "draft");
}

#[test]
fn line_formats() {
    assert_eq!(format_line("3*3", &Ok(number("9"))), "3*3 = 9");
    assert_eq!(format_line("", &Ok(number(""))), " = ");
    assert_eq!(
        format_line("a b", &Err(EvaluationError::Rejected(String::from("bad")))),
        "Error in a b : bad"
    );
    assert_eq!(format_line("", &Err(EvaluationError::Blank)), "Error in  : empty expression");
}

#[test]
fn set_input_replaces_the_buffer_only() {
    let mut calculator = Calculator::new();
    calculator.commit_expression("1");
    calculator.set_input(String::from("abc"));
    calculator.set_input(String::from("de"));
    assert_eq!(calculator.input(), "de");
    assert_eq!(calculator.text(), "1 = 1\n");
}

#[test]
fn restored_calculator_continues_the_transcript() {
    let mut calculator =
        Calculator::restore(String::from("2*"), vec![String::from("1 = 1"), String::from("x")]);
    assert_eq!(calculator.input(), "2*");
    assert_eq!(calculator.text(), "1 = 1\nx\n");
    calculator.commit_expression("2*4");
    assert_eq!(calculator.text(), "1 = 1\nx\n2*4 = 8\n");
    assert_eq!(calculator.input(), "2*");
}
