//! The calculator panel: an input buffer and an append-only transcript.

use vstd::prelude::*;
use vstd::string::*;
use crate::evaluator::{
    error_message, evaluate, is_blank, outcome_view, EvaluationError, EvaluationErrorView, Number,
};

verus! {

/// The transcript line for an expression and what its evaluation gave:
/// `{expression} = {value}` or `Error in {expression} : {message}`.
pub open spec fn transcript_line(
    expression: Seq<char>,
    outcome: Result<Seq<char>, EvaluationErrorView>,
) -> Seq<char> {
    match outcome {
        Ok(value) => expression + " = "@ + value,
        Err(error) => "Error in "@ + expression + " : "@ + error_message(error),
    }
}

/// The transcript as one text: every line, each closed by a line feed.
pub open spec fn transcript_text(lines: Seq<Seq<char>>) -> Seq<char>
    decreases lines.len(),
{
    if lines.len() == 0 {
        Seq::empty()
    } else {
        transcript_text(lines.drop_last()) + lines.last() + seq!['\n']
    }
}

/// The views of a vector of texts.
pub open spec fn text_views(texts: Seq<String>) -> Seq<Seq<char>> {
    texts.map_values(|text: String| text@)
}

/// A calculator as a mathematical value.
pub struct CalculatorView {
    pub input: Seq<char>,
    pub transcript: Seq<Seq<char>>,
}

/// The calculator after one more line for `expression` and its outcome.
/// The input buffer is not touched.
pub open spec fn recorded(
    calculator: CalculatorView,
    expression: Seq<char>,
    outcome: Result<Seq<char>, EvaluationErrorView>,
) -> CalculatorView {
    CalculatorView {
        transcript: calculator.transcript.push(transcript_line(expression, outcome)),
        ..calculator
    }
}

/// Formats the transcript line for an expression and its outcome.
pub fn format_line(expression: &str, outcome: &Result<Number, EvaluationError>) -> (line: String)
    ensures
        line@ == transcript_line(expression@, outcome_view(*outcome)),
{
    match outcome {
        Ok(number) => {
            let mut line = expression.to_owned();
            line.append(" = ");
            line.append(number.text().as_str());
            line
        },
        Err(error) => {
            let message = error.message();
            let mut line = "Error in ".to_owned();
            line.append(expression);
            line.append(" : ");
            line.append(message.as_str());
            line
        },
    }
}

/// The calculator: the text being edited and the lines committed so far.
#[derive(Debug)]
pub struct Calculator {
    input: String,
    transcript: Vec<String>,
}

impl View for Calculator {
    type V = CalculatorView;

    closed spec fn view(&self) -> CalculatorView {
        CalculatorView { input: self.input@, transcript: text_views(self.transcript@) }
    }
}

impl Calculator {
    /// A calculator with an empty input buffer and an empty transcript.
    pub fn new() -> (calculator: Calculator)
        ensures
            calculator@ == (CalculatorView { input: Seq::empty(), transcript: Seq::empty() }),
    {
        let calculator = Calculator { input: String::new(), transcript: Vec::new() };
        assert(calculator@.transcript =~= Seq::<Seq<char>>::empty());
        calculator
    }

    /// A calculator with the given buffer and transcript, as read back from a
    /// saved session.
    pub fn restore(input: String, transcript: Vec<String>) -> (calculator: Calculator)
        ensures
            calculator@ == (CalculatorView {
                input: input@,
                transcript: text_views(transcript@),
            }),
    {
        Calculator { input, transcript }
    }

    /// The text in the input buffer.
    pub fn input(&self) -> (input: &String)
        ensures
            input@ == self@.input,
    {
        &self.input
    }

    /// The committed lines, oldest first.
    pub fn transcript(&self) -> (lines: &Vec<String>)
        ensures
            text_views(lines@) == self@.transcript,
    {
        &self.transcript
    }

    /// Replaces the text in the input buffer; the transcript stays.
    pub fn set_input(&mut self, text: String)
        ensures
            final(self)@ == (CalculatorView { input: text@, ..old(self)@ }),
    {
        self.input = text;
    }

    /// Appends the line for `expression` and the given outcome of its
    /// evaluation. Nothing else changes: no line is altered or dropped, and
    /// the input buffer keeps its text.
    pub fn record(&mut self, expression: &str, outcome: &Result<Number, EvaluationError>)
        ensures
            final(self)@ == recorded(old(self)@, expression@, outcome_view(*outcome)),
    {
        let line = format_line(expression, outcome);
        self.transcript.push(line);
        assert(self@.transcript =~= old(self)@.transcript.push(
            transcript_line(expression@, outcome_view(*outcome)),
        ));
    }

    /// Commits an expression: evaluates it once and appends one line with
    /// the value or the error. An empty expression commits nothing. The
    /// input buffer is not cleared. The result is what the evaluation gave.
    pub fn commit_expression(&mut self, expression: &str) -> (committed: Option<
        Result<Number, EvaluationError>,
    >)
        ensures
            expression@.len() == 0 ==> committed is None && final(self)@ == old(self)@,
            expression@.len() > 0 ==> committed is Some && final(self)@ == recorded(
                old(self)@,
                expression@,
                outcome_view(committed->0),
            ),
            committed is Some ==> (is_blank(expression@) <==> outcome_view(committed->0) == Err::<
                Seq<char>,
                EvaluationErrorView,
            >(EvaluationErrorView::Blank)),
    {
        if expression.is_empty() {
            return None;
        }
        let outcome = evaluate(expression);
        self.record(expression, &outcome);
        Some(outcome)
    }

    /// Commits the text of the input buffer, which keeps its text.
    pub fn commit(&mut self) -> (committed: Option<Result<Number, EvaluationError>>)
        ensures
            old(self)@.input.len() == 0 ==> committed is None && final(self)@ == old(self)@,
            old(self)@.input.len() > 0 ==> committed is Some && final(self)@ == recorded(
                old(self)@,
                old(self)@.input,
                outcome_view(committed->0),
            ),
            committed is Some ==> (is_blank(old(self)@.input) <==> outcome_view(committed->0)
                == Err::<Seq<char>, EvaluationErrorView>(EvaluationErrorView::Blank)),
    {
        let expression = self.input.clone();
        self.commit_expression(expression.as_str())
    }

    /// The transcript as one text, every line closed by a line feed.
    pub fn text(&self) -> (text: String)
        ensures
            text@ == transcript_text(self@.transcript),
    {
        let mut text = String::new();
        let mut i: usize = 0;
        assert(self@.transcript.take(0) =~= Seq::<Seq<char>>::empty());
        while i < self.transcript.len()
            invariant
                i <= self.transcript.len(),
                text@ == transcript_text(self@.transcript.take(i as int)),
            decreases self.transcript.len() - i,
        {
            proof {
                reveal_strlit("\n");
                let next = self@.transcript.take(i + 1);
                assert(next.drop_last() =~= self@.transcript.take(i as int));
                assert(next.last() == self.transcript[i as int]@);
                assert("\n"@ =~= seq!['\n']);
            }
            text.append(self.transcript[i].as_str());
            text.append("\n");
            i += 1;
        }
        assert(self@.transcript.take(i as int) =~= self@.transcript);
        text
    }
}

} // verus!
