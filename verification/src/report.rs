//! How a run ends: what went wrong, what is said about it, and the status
//! that the process leaves with.

use crate::inference::{InferenceError, InferenceErrorView};
use vstd::prelude::*;
use vstd::string::StringExecFns;

verus! {

/// What ends a run before its command has run well.
#[derive(Clone, Debug, PartialEq, Eq)]
pub enum Failure {
    /// The request was blank.
    EmptyPrompt,
    /// The service gave no command.
    Inference(InferenceError),
    /// The shell keeps a history file, but the home directory is not known.
    HomeUnset,
    /// The history file was opened and could not be written.
    HistoryWrite,
    /// The shell could not be started.
    Launch,
    /// The command ran and failed.
    Command,
}

/// A `Failure` with its texts as sequences of characters.
pub enum FailureView {
    EmptyPrompt,
    Inference(InferenceErrorView),
    HomeUnset,
    HistoryWrite,
    Launch,
    Command,
}

impl View for Failure {
    type V = FailureView;

    open spec fn view(&self) -> FailureView {
        match self {
            Failure::EmptyPrompt => FailureView::EmptyPrompt,
            Failure::Inference(error) => FailureView::Inference(error@),
            Failure::HomeUnset => FailureView::HomeUnset,
            Failure::HistoryWrite => FailureView::HistoryWrite,
            Failure::Launch => FailureView::Launch,
            Failure::Command => FailureView::Command,
        }
    }
}

/// How a run ended.
#[derive(Clone, Debug, PartialEq, Eq)]
pub enum RunEnd {
    /// The command was accepted and ran well.
    Completed,
    /// The user stopped the run; nothing was executed.
    Aborted,
    /// The run failed.
    Failed(Failure),
}

/// The character of the digit `d`.
pub open spec fn digit_char(d: nat) -> char
    recommends
        d < 10,
{
    if d == 0 {
        '0'
    } else if d == 1 {
        '1'
    } else if d == 2 {
        '2'
    } else if d == 3 {
        '3'
    } else if d == 4 {
        '4'
    } else if d == 5 {
        '5'
    } else if d == 6 {
        '6'
    } else if d == 7 {
        '7'
    } else if d == 8 {
        '8'
    } else {
        '9'
    }
}

/// The number `n` in decimal digits, without leading zeros.
pub open spec fn decimal(n: nat) -> Seq<char>
    decreases n,
{
    if n < 10 {
        seq![digit_char(n)]
    } else {
        decimal(n / 10) + seq![digit_char(n % 10)]
    }
}

/// What is said about an error of the inference client.
pub open spec fn inference_message(error: InferenceErrorView) -> Seq<char> {
    match error {
        InferenceErrorView::ClientError(message) => "API error: \""@ + message + "\""@,
        InferenceErrorView::ServiceUnavailable(status) =>
            "Please check if Ollama is up and running. Status code: "@ + decimal(status as nat),
        InferenceErrorView::Unreachable => "Please check if Ollama is up and running."@,
        InferenceErrorView::MalformedResponse => "The reply of Ollama could not be read."@,
    }
}

/// What is said about a failure.
pub open spec fn failure_message(failure: FailureView) -> Seq<char> {
    match failure {
        FailureView::EmptyPrompt => "Error: The prompt is empty."@,
        FailureView::Inference(error) => inference_message(error),
        FailureView::HomeUnset => "The home directory is not set."@,
        FailureView::HistoryWrite => "Failed to write the shell history."@,
        FailureView::Launch => "Failed to execute the generated program."@,
        FailureView::Command => "The program threw an error."@,
    }
}

fn digit_text(d: u16) -> (r: &'static str)
    requires
        d < 10,
    ensures
        r@ == seq![digit_char(d as nat)],
{
    proof {
        reveal_strlit("0");
        reveal_strlit("1");
        reveal_strlit("2");
        reveal_strlit("3");
        reveal_strlit("4");
        reveal_strlit("5");
        reveal_strlit("6");
        reveal_strlit("7");
        reveal_strlit("8");
        reveal_strlit("9");
    }
    let r = if d == 0 {
        "0"
    } else if d == 1 {
        "1"
    } else if d == 2 {
        "2"
    } else if d == 3 {
        "3"
    } else if d == 4 {
        "4"
    } else if d == 5 {
        "5"
    } else if d == 6 {
        "6"
    } else if d == 7 {
        "7"
    } else if d == 8 {
        "8"
    } else {
        "9"
    };
    assert(r@ =~= seq![digit_char(d as nat)]);
    r
}

/// The number `n` in decimal digits.
pub fn decimal_text(n: u16) -> (r: String)
    ensures
        r@ == decimal(n as nat),
    decreases n,
{
    if n < 10 {
        String::from_str(digit_text(n))
    } else {
        let mut text = decimal_text(n / 10);
        text.append(digit_text(n % 10));
        text
    }
}

impl InferenceError {
    /// What is said about this error.
    pub fn message(&self) -> (r: String)
        ensures
            r@ == inference_message(self@),
    {
        match self {
            InferenceError::ClientError(message) => {
                let mut text = String::from_str("API error: \"");
                text.append(message.as_str());
                text.append("\"");
                text
            },
            InferenceError::ServiceUnavailable(status) => {
                let mut text = String::from_str(
                    "Please check if Ollama is up and running. Status code: ",
                );
                text.append(decimal_text(*status).as_str());
                text
            },
            InferenceError::Unreachable => String::from_str(
                "Please check if Ollama is up and running.",
            ),
            InferenceError::MalformedResponse => String::from_str(
                "The reply of Ollama could not be read.",
            ),
        }
    }
}

impl Failure {
    /// What is said about this failure.
    pub fn message(&self) -> (r: String)
        ensures
            r@ == failure_message(self@),
    {
        match self {
            Failure::EmptyPrompt => String::from_str("Error: The prompt is empty."),
            Failure::Inference(error) => error.message(),
            Failure::HomeUnset => String::from_str("The home directory is not set."),
            Failure::HistoryWrite => String::from_str("Failed to write the shell history."),
            Failure::Launch => String::from_str("Failed to execute the generated program."),
            Failure::Command => String::from_str("The program threw an error."),
        }
    }
}

impl RunEnd {
    /// The status that the process leaves with: 0 where the command ran well
    /// or the user stopped the run, 1 after any failure.
    pub open spec fn status(&self) -> i32 {
        match self {
            RunEnd::Completed => 0,
            RunEnd::Aborted => 0,
            RunEnd::Failed(_) => 1,
        }
    }

    /// The status that the process leaves with.
    pub fn exit_code(&self) -> (r: i32)
        ensures
            r == self.status(),
    {
        match self {
            RunEnd::Completed => 0,
            RunEnd::Aborted => 0,
            RunEnd::Failed(_) => 1,
        }
    }
}

} // verus!
