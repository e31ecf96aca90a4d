//! What the user answers when asked whether to run a command, and what the
//! answer decides.

use crate::text::same_text;
use vstd::prelude::*;

verus! {

/// The answer to a question on the terminal: the agreed value that an empty
/// line stands for, or the text that was entered.
#[derive(Clone, Debug, PartialEq, Eq)]
pub enum Answer {
    /// The text that was entered.
    Response(String),
    /// A plain yes.
    Yes,
    /// A plain no.
    No,
}

/// An `Answer` with its text as a sequence of characters.
pub enum AnswerView {
    Response(Seq<char>),
    Yes,
    No,
}

impl View for Answer {
    type V = AnswerView;

    open spec fn view(&self) -> AnswerView {
        match self {
            Answer::Response(text) => AnswerView::Response(text@),
            Answer::Yes => AnswerView::Yes,
            Answer::No => AnswerView::No,
        }
    }
}

/// What is done with a generated command.
#[derive(Clone, Copy, Debug, PartialEq, Eq, Structural)]
pub enum UserDecision {
    /// Run it.
    Accept,
    /// Drop it and generate another.
    Retry,
    /// Drop it and stop.
    Abort,
}

/// What an entered text decides: `y` accepts and `r` asks for another
/// command, in either case of the letter; any other text stops the run.
pub open spec fn text_decision(text: Seq<char>) -> UserDecision {
    if text == "y"@ || text == "Y"@ {
        UserDecision::Accept
    } else if text == "r"@ || text == "R"@ {
        UserDecision::Retry
    } else {
        UserDecision::Abort
    }
}

/// What an answer decides: a plain yes accepts, a plain no asks for another
/// command, and an entered text decides by [`text_decision`].
pub open spec fn answer_decision(answer: AnswerView) -> UserDecision {
    match answer {
        AnswerView::Yes => UserDecision::Accept,
        AnswerView::No => UserDecision::Retry,
        AnswerView::Response(text) => text_decision(text),
    }
}

/// The answer that the line `raw_input` stands for: the default where the
/// line is empty, else the line itself.
pub open spec fn line_answer(raw_input: Seq<char>, default_answer: AnswerView) -> AnswerView {
    if raw_input.len() == 0 {
        default_answer
    } else {
        AnswerView::Response(raw_input)
    }
}

/// What `answer` decides.
pub fn resolve_answer(answer: &Answer) -> (r: UserDecision)
    ensures
        r == answer_decision(answer@),
{
    match answer {
        Answer::Yes => UserDecision::Accept,
        Answer::No => UserDecision::Retry,
        Answer::Response(text) => {
            let text = text.as_str();
            if same_text(text, "y") || same_text(text, "Y") {
                UserDecision::Accept
            } else if same_text(text, "r") || same_text(text, "R") {
                UserDecision::Retry
            } else {
                UserDecision::Abort
            }
        },
    }
}

/// What the line `raw_input` decides, where an empty line stands for
/// `default_answer`.
pub fn resolve_decision(raw_input: &str, default_answer: &Answer) -> (r: UserDecision)
    ensures
        r == answer_decision(line_answer(raw_input@, default_answer@)),
{
    if raw_input.is_empty() {
        resolve_answer(default_answer)
    } else {
        resolve_answer(&Answer::Response(raw_input.to_owned()))
    }
}

} // verus!
