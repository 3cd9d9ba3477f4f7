//! Evaluation of arithmetic text.

use vstd::prelude::*;
use vstd::std_specs::iter::IteratorSpec;

verus! {

/// The characters that the evaluator skips between tokens.
pub open spec fn is_blank_char(c: char) -> bool {
    c == ' ' || c == '\t' || c == '\r' || c == '\n'
}

/// An expression without a single token: empty, or blanks only.
pub open spec fn is_blank(s: Seq<char>) -> bool {
    forall|i: int| 0 <= i < s.len() ==> is_blank_char(#[trigger] s[i])
}

/// Whether the character is a blank.
fn is_blank_character(c: char) -> (blank: bool)
    ensures
        blank == is_blank_char(c),
{
    c == ' ' || c == '\t' || c == '\r' || c == '\n'
}

/// Whether the text holds nothing but blanks.
pub fn is_blank_text(text: &str) -> (blank: bool)
    ensures
        blank == is_blank(text@),
{
    broadcast use vstd::string::group_string_axioms;

    let mut rest = text.chars();
    let ghost mut seen: int = 0;
    loop
        invariant
            0 <= seen <= text@.len(),
            rest.remaining() == text@.subrange(seen, text@.len() as int),
            forall|j: int| 0 <= j < seen ==> is_blank_char(#[trigger] text@[j]),
        decreases text@.len() - seen,
    {
        match rest.next() {
            None => {
                return true;
            },
            Some(c) => {
                assert(c == text@[seen]);
                if !is_blank_character(c) {
                    return false;
                }
                proof {
                    assert(text@.subrange(seen, text@.len() as int).drop_first()
                        =~= text@.subrange(seen + 1, text@.len() as int));
                    seen = seen + 1;
                }
            },
        }
    }
}

/// Why an expression has no value.
#[derive(Debug, PartialEq, Eq)]
pub enum EvaluationError {
    /// The expression holds no token at all.
    Blank,
    /// The evaluator rejected the expression, with this message.
    Rejected(String),
}

/// An evaluation error as a mathematical value.
pub enum EvaluationErrorView {
    Blank,
    Rejected(Seq<char>),
}

impl View for EvaluationError {
    type V = EvaluationErrorView;

    open spec fn view(&self) -> EvaluationErrorView {
        match self {
            EvaluationError::Blank => EvaluationErrorView::Blank,
            EvaluationError::Rejected(message) => EvaluationErrorView::Rejected(message@),
        }
    }
}

/// The text that describes an error.
pub open spec fn error_message(error: EvaluationErrorView) -> Seq<char> {
    match error {
        EvaluationErrorView::Blank => "empty expression"@,
        EvaluationErrorView::Rejected(message) => message,
    }
}

impl EvaluationError {
    /// The text that describes the error.
    pub fn message(&self) -> (text: String)
        ensures
            text@ == error_message(self@),
    {
        match self {
            EvaluationError::Blank => "empty expression".to_owned(),
            EvaluationError::Rejected(message) => message.clone(),
        }
    }
}

/// The value of an expression, held as the decimal text that the evaluator
/// prints for it (`4`, `0.5`, `inf`, `NaN`).
#[derive(Debug, PartialEq, Eq)]
pub struct Number {
    text: String,
}

impl View for Number {
    type V = Seq<char>;

    closed spec fn view(&self) -> Seq<char> {
        self.text@
    }
}

impl Number {
    /// The number that prints as `text`.
    pub fn from_text(text: String) -> (number: Number)
        ensures
            number@ == text@,
    {
        Number { text }
    }

    /// The decimal text of the number.
    pub fn text(&self) -> (text: &String)
        ensures
            text@ == self@,
    {
        &self.text
    }
}

/// What an evaluation gave, as a mathematical value.
pub open spec fn outcome_view(outcome: Result<Number, EvaluationError>) -> Result<
    Seq<char>,
    EvaluationErrorView,
> {
    match outcome {
        Ok(number) => Ok(number@),
        Err(error) => Err(error@),
    }
}

/// Calls `meval::eval_str` on the expression and hands back what it
/// returned, both the number and the error printed through their `Display`.
///
/// Nothing is claimed of the result: the evaluator computes with the
/// floating-point functions of the platform, whose precision std leaves
/// unspecified, so one text need not print the same on every machine. The
/// one claim is in `requires`: on an expression with at least one
/// character that is not a blank, the call returns. (On a non-empty
/// expression of blanks only, its tokenizer panics.)
#[verifier::external_body]
fn eval_str(expression: &str) -> (result: Result<String, String>)
    requires
        !is_blank(expression@),
{
    match meval::eval_str(expression) {
        Ok(value) => Ok(format!("{}", value)),
        Err(error) => Err(format!("{}", error)),
    }
}

/// Evaluates an arithmetic expression: the operators `+ - * / % ^`,
/// parentheses, and the evaluator's functions and constants. Division by
/// zero is no error: the value is an infinity or `NaN`.
///
/// A blank expression is rejected here and never reaches the evaluator;
/// every other rejection is the evaluator's own and carries its message.
pub fn evaluate(expression: &str) -> (outcome: Result<Number, EvaluationError>)
    ensures
        is_blank(expression@) <==> outcome_view(outcome) == Err::<
            Seq<char>,
            EvaluationErrorView,
        >(EvaluationErrorView::Blank),
{
    if is_blank_text(expression) {
        return Err(EvaluationError::Blank);
    }
    match eval_str(expression) {
        Ok(text) => Ok(Number::from_text(text)),
        Err(message) => Err(EvaluationError::Rejected(message)),
    }
}

} // verus!
