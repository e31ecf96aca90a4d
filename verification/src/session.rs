//! The loop that generates a command, shows it and asks what to do with it,
//! as a machine of states: whoever drives a session does what its state asks
//! for and hands back what happened.

use crate::config::Config;
use crate::decision::{answer_decision, resolve_answer, Answer, AnswerView, UserDecision};
use crate::inference::{
    generation_view, system_prompt, GenerateRequest, InferenceError, InferenceErrorView,
};
use crate::prompt::{prompt_text, Platform, RunRequest};
use crate::report::{Failure, FailureView};
use crate::text::{blank, joined};
use vstd::prelude::*;

verus! {

/// A `GenerateRequest` with its texts as sequences of characters.
pub struct GenerateRequestView {
    pub url: Seq<char>,
    pub model: Seq<char>,
    pub stream: bool,
    pub system: Seq<char>,
    pub prompt: Seq<char>,
}

impl View for GenerateRequest {
    type V = GenerateRequestView;

    open spec fn view(&self) -> GenerateRequestView {
        GenerateRequestView {
            url: self.url@,
            model: self.model@,
            stream: self.stream,
            system: self.system@,
            prompt: self.prompt@,
        }
    }
}

/// The state of one run.
#[derive(Clone, Debug, PartialEq, Eq)]
pub enum Session {
    /// The request is with the service.
    Generating { request: GenerateRequest },
    /// The service gave `command`; the user is asked what to do with it.
    AwaitingDecision { request: GenerateRequest, command: String },
    /// The user accepted `command`: it is recorded and run.
    Accepted { command: String },
    /// The user stopped the run.
    Aborted,
    /// The run failed before a command was accepted.
    Failed { failure: Failure },
}

/// A `Session` with its texts as sequences of characters.
pub enum SessionView {
    Generating { request: GenerateRequestView },
    AwaitingDecision { request: GenerateRequestView, command: Seq<char> },
    Accepted { command: Seq<char> },
    Aborted,
    Failed { failure: FailureView },
}

impl View for Session {
    type V = SessionView;

    open spec fn view(&self) -> SessionView {
        match self {
            Session::Generating { request } => SessionView::Generating { request: request@ },
            Session::AwaitingDecision { request, command } => SessionView::AwaitingDecision {
                request: request@,
                command: command@,
            },
            Session::Accepted { command } => SessionView::Accepted { command: command@ },
            Session::Aborted => SessionView::Aborted,
            Session::Failed { failure } => SessionView::Failed { failure: failure@ },
        }
    }
}

/// What happened outside since the last step.
#[derive(Debug, PartialEq, Eq)]
pub enum Event {
    /// The service was asked, with this result.
    Generated(Result<String, InferenceError>),
    /// The user was asked, with this answer.
    Answered(Answer),
}

/// An `Event` with its texts as sequences of characters.
pub enum EventView {
    Generated(Result<Seq<char>, InferenceErrorView>),
    Answered(AnswerView),
}

impl View for Event {
    type V = EventView;

    open spec fn view(&self) -> EventView {
        match self {
            Event::Generated(result) => EventView::Generated(generation_view(*result)),
            Event::Answered(answer) => EventView::Answered(answer@),
        }
    }
}

/// What a state asks of whoever drives the session.
#[derive(Clone, Copy, Debug, PartialEq, Eq, Structural)]
pub enum Action {
    /// Post the request and hand back what the reply means.
    Generate,
    /// Show the command, ask the user and hand back the answer.
    Ask,
    /// Record the command and run it.
    Run,
    /// Stop with status 0: nothing is recorded or run.
    Stop,
    /// Report the failure and stop with status 1.
    Fail,
}

/// The request for `prompt` with the settings `api_base` and `model`.
pub open spec fn request_for(api_base: Seq<char>, model: Seq<char>, prompt: Seq<char>) ->
    GenerateRequestView {
    GenerateRequestView {
        url: api_base + "/generate"@,
        model,
        stream: false,
        system: system_prompt(),
        prompt,
    }
}

/// The state in which a run begins: failed where the words are blank, else
/// generating, with the request for the prompt built from the words.
pub open spec fn initial(
    api_base: Seq<char>,
    model: Seq<char>,
    words: Seq<Seq<char>>,
    platform: Platform,
) -> SessionView {
    if blank(joined(words, " "@)) {
        SessionView::Failed { failure: FailureView::EmptyPrompt }
    } else {
        SessionView::Generating {
            request: request_for(api_base, model, prompt_text(joined(words, " "@), platform)),
        }
    }
}

/// The state that follows `state` on `event`. A result of the service counts
/// only while one is awaited, and an answer only while the user is asked; an
/// event that does not fit the state leaves it as it is.
pub open spec fn next(state: SessionView, event: EventView) -> SessionView {
    match (state, event) {
        (SessionView::Generating { request }, EventView::Generated(Ok(command))) =>
            SessionView::AwaitingDecision { request, command },
        (SessionView::Generating { request }, EventView::Generated(Err(error))) =>
            SessionView::Failed { failure: FailureView::Inference(error) },
        (SessionView::AwaitingDecision { request, command }, EventView::Answered(answer)) =>
            match answer_decision(answer) {
                UserDecision::Accept => SessionView::Accepted { command },
                UserDecision::Retry => SessionView::Generating { request },
                UserDecision::Abort => SessionView::Aborted,
            },
        _ => state,
    }
}

/// What `state` asks for.
pub open spec fn action_of(state: SessionView) -> Action {
    match state {
        SessionView::Generating { .. } => Action::Generate,
        SessionView::AwaitingDecision { .. } => Action::Ask,
        SessionView::Accepted { .. } => Action::Run,
        SessionView::Aborted => Action::Stop,
        SessionView::Failed { .. } => Action::Fail,
    }
}

/// The state reached from `state` by `events`, one after the other.
pub open spec fn run(state: SessionView, events: Seq<EventView>) -> SessionView
    decreases events.len(),
{
    if events.len() == 0 {
        state
    } else {
        next(run(state, events.drop_last()), events.last())
    }
}

impl Session {
    /// Begins a run for `words` on `platform` with the settings of `config`.
    pub fn start(config: &Config, words: &Vec<String>, platform: Platform) -> (r: Session)
        ensures
            r@ == initial(config.api_base@, config.model@, words.deep_view(), platform),
    {
        match RunRequest::new(words, platform) {
            Err(_) => Session::Failed { failure: Failure::EmptyPrompt },
            Ok(asked) => Session::Generating {
                request: GenerateRequest::new(config, asked.prompt()),
            },
        }
    }

    /// The state that follows on `event`.
    pub fn step(self, event: Event) -> (r: Session)
        ensures
            r@ == next(self@, event@),
    {
        match self {
            Session::Generating { request } => match event {
                Event::Generated(Ok(command)) => Session::AwaitingDecision { request, command },
                Event::Generated(Err(error)) => Session::Failed {
                    failure: Failure::Inference(error),
                },
                Event::Answered(_) => Session::Generating { request },
            },
            Session::AwaitingDecision { request, command } => match event {
                Event::Answered(answer) => match resolve_answer(&answer) {
                    UserDecision::Accept => Session::Accepted { command },
                    UserDecision::Retry => Session::Generating { request },
                    UserDecision::Abort => Session::Aborted,
                },
                Event::Generated(_) => Session::AwaitingDecision { request, command },
            },
            Session::Accepted { command } => Session::Accepted { command },
            Session::Aborted => Session::Aborted,
            Session::Failed { failure } => Session::Failed { failure },
        }
    }

    /// What this state asks for.
    pub fn action(&self) -> (r: Action)
        ensures
            r == action_of(self@),
    {
        match self {
            Session::Generating { .. } => Action::Generate,
            Session::AwaitingDecision { .. } => Action::Ask,
            Session::Accepted { .. } => Action::Run,
            Session::Aborted => Action::Stop,
            Session::Failed { .. } => Action::Fail,
        }
    }
}

/// A state in which the run is over: no event changes it.
pub open spec fn is_final(state: SessionView) -> bool {
    state is Accepted || state is Aborted || state is Failed
}

/// A run that is over stays as it is, whatever happens.
pub proof fn lemma_final_states_stay(state: SessionView, events: Seq<EventView>)
    requires
        is_final(state),
    ensures
        run(state, events) == state,
    decreases events.len(),
{
    if events.len() > 0 {
        lemma_final_states_stay(state, events.drop_last());
    }
}

/// A run for blank words never asks for the service: whatever happens, it
/// has failed for want of a prompt.
pub proof fn lemma_blank_prompt_never_generates(
    api_base: Seq<char>,
    model: Seq<char>,
    words: Seq<Seq<char>>,
    platform: Platform,
    events: Seq<EventView>,
)
    requires
        blank(joined(words, " "@)),
    ensures
        run(initial(api_base, model, words, platform), events) == (SessionView::Failed {
            failure: FailureView::EmptyPrompt,
        }),
        action_of(run(initial(api_base, model, words, platform), events)) != Action::Generate,
{
    lemma_final_states_stay(initial(api_base, model, words, platform), events);
}

/// The request of a run never changes: as long as the run is not over, it
/// holds the request that it began with, so that every retry asks the
/// service the same.
pub proof fn lemma_request_is_kept(request: GenerateRequestView, events: Seq<EventView>)
    ensures
        match run(SessionView::Generating { request }, events) {
            SessionView::Generating { request: kept } => kept == request,
            SessionView::AwaitingDecision { request: kept, .. } => kept == request,
            _ => true,
        },
    decreases events.len(),
{
    if events.len() > 0 {
        lemma_request_is_kept(request, events.drop_last());
    }
}

/// Asking for another command leads back to the service once, with the same
/// request and without the command that was shown; until the service has
/// answered, no answer of the user counts.
pub proof fn lemma_retry_generates_again(
    request: GenerateRequestView,
    command: Seq<char>,
    answer: AnswerView,
    later: AnswerView,
)
    requires
        answer_decision(answer) == UserDecision::Retry,
    ensures
        next(SessionView::AwaitingDecision { request, command }, EventView::Answered(answer)) == (
        SessionView::Generating { request }),
        action_of(SessionView::Generating { request }) == Action::Generate,
        next(SessionView::Generating { request }, EventView::Answered(later)) == (
        SessionView::Generating { request }),
{
}

/// Whether `events` hold, at `made`, a command from the service and, at a
/// later place `taken`, an answer that accepts.
pub open spec fn accepted_at(events: Seq<EventView>, command: Seq<char>, made: int, taken: int) ->
    bool {
    &&& 0 <= made < taken < events.len()
    &&& events[made] == EventView::Generated(Ok(command))
    &&& events[taken] matches EventView::Answered(answer) && answer_decision(answer)
        == UserDecision::Accept
}

/// A command is run only if the service gave it and the user accepted
/// afterwards: a run that ends accepted has seen both, in this order.
pub proof fn lemma_run_only_when_accepted(
    request: GenerateRequestView,
    events: Seq<EventView>,
    command: Seq<char>,
)
    requires
        run(SessionView::Generating { request }, events) == (SessionView::Accepted { command }),
    ensures
        exists|made: int, taken: int| accepted_at(events, command, made, taken),
{
    lemma_history(request, events);
    let (made, taken) = choose|made: int, taken: int|
        accepted_at(events, command, made, taken);
    assert(accepted_at(events, command, made, taken));
}

proof fn lemma_history(request: GenerateRequestView, events: Seq<EventView>)
    ensures
        match run(SessionView::Generating { request }, events) {
            SessionView::AwaitingDecision { command, .. } => exists|made: int|
                0 <= made < events.len() && #[trigger] events[made] == EventView::Generated(
                    Ok(command),
                ),
            SessionView::Accepted { command } => exists|made: int, taken: int|
                accepted_at(events, command, made, taken),
            _ => true,
        },
    decreases events.len(),
{
    if events.len() > 0 {
        let before = events.drop_last();
        let last = events.len() - 1;
        lemma_history(request, before);
        let state = run(SessionView::Generating { request }, before);
        let after = run(SessionView::Generating { request }, events);
        assert(after == next(state, events.last()));
        match after {
            SessionView::AwaitingDecision { command, .. } => {
                if state is AwaitingDecision {
                    let made = choose|made: int|
                        0 <= made < before.len() && #[trigger] before[made]
                            == EventView::Generated(Ok(command));
                    assert(events[made] == before[made]);
                } else {
                    assert(events[last] == EventView::Generated(Ok(command)));
                }
            },
            SessionView::Accepted { command } => {
                if state is Accepted {
                    let (made, taken) = choose|made: int, taken: int|
                        accepted_at(before, command, made, taken);
                    assert(events[made] == before[made]);
                    assert(events[taken] == before[taken]);
                    assert(accepted_at(events, command, made, taken));
                } else {
                    let made = choose|made: int|
                        0 <= made < before.len() && #[trigger] before[made]
                            == EventView::Generated(Ok(command));
                    assert(events[made] == before[made]);
                    assert(accepted_at(events, command, made, last));
                }
            },
            _ => {},
        }
    }
}

} // verus!
