//! The request to the inference service, and what its reply means.

use crate::config::Config;
use crate::json::{member, parse_document, parsed_texts, KeyPath};
use crate::text::{trim, trimmed};
use vstd::prelude::*;
use vstd::string::StringExecFns;

verus! {

/// One request for a command: where it is posted and what its body holds.
#[derive(Clone, Debug, PartialEq, Eq)]
pub struct GenerateRequest {
    /// The address that the request is posted to.
    pub url: String,
    /// The member `model` of the body.
    pub model: String,
    /// The member `stream` of the body; the whole reply is asked for at once.
    pub stream: bool,
    /// The member `system` of the body.
    pub system: String,
    /// The member `prompt` of the body.
    pub prompt: String,
}

/// Why the service gave no command.
#[derive(Clone, Debug, PartialEq, Eq)]
pub enum InferenceError {
    /// The service refused the request, and says why.
    ClientError(String),
    /// The service failed, with this status.
    ServiceUnavailable(u16),
    /// The service was not reached.
    Unreachable,
    /// The reply does not hold the text that its status promises.
    MalformedResponse,
}

/// An `InferenceError` with its message as a sequence of characters.
pub enum InferenceErrorView {
    ClientError(Seq<char>),
    ServiceUnavailable(u16),
    Unreachable,
    MalformedResponse,
}

impl View for InferenceError {
    type V = InferenceErrorView;

    open spec fn view(&self) -> InferenceErrorView {
        match self {
            InferenceError::ClientError(message) => InferenceErrorView::ClientError(message@),
            InferenceError::ServiceUnavailable(status) => InferenceErrorView::ServiceUnavailable(
                *status,
            ),
            InferenceError::Unreachable => InferenceErrorView::Unreachable,
            InferenceError::MalformedResponse => InferenceErrorView::MalformedResponse,
        }
    }
}

/// The view of what one generation gave: the command, or the error.
pub open spec fn generation_view(r: Result<String, InferenceError>) -> Result<
    Seq<char>,
    InferenceErrorView,
> {
    match r {
        Ok(command) => Ok(command@),
        Err(error) => Err(error@),
    }
}

/// The instruction that goes with every request.
pub open spec fn system_prompt() -> Seq<char> {
    "You are a helpful assistant who is specialized in generating one-liner shell command based on user prompt. Reply only the command and absolutely nothing else. The assistant, only"@
}

/// A status from 400 to 499: the service refuses the request.
pub open spec fn is_client_error(status: u16) -> bool {
    400 <= status < 500
}

/// A status from 500 to 599: the service has failed.
pub open spec fn is_server_error(status: u16) -> bool {
    500 <= status < 600
}

/// Where a reply with this status holds its text: under `error`, `message`
/// where the service refuses, else under `response`.
pub open spec fn reply_path(status: u16) -> KeyPath {
    if is_client_error(status) {
        seq!["error"@, "message"@]
    } else {
        seq!["response"@]
    }
}

/// The string that stands under `path`, if the document parsed and holds one
/// there.
pub open spec fn text_at(texts: Option<Map<KeyPath, Seq<char>>>, path: KeyPath) -> Option<
    Seq<char>,
> {
    match texts {
        Some(found) => if found.contains_key(path) {
            Some(found[path])
        } else {
            None
        },
        None => None,
    }
}

/// What a reply means, by its status and the text found in its body. A failed
/// service is reported whatever the body holds. A refusal carries the
/// service's message. Any other status carries the command, which is the text
/// without the white space around it.
pub open spec fn reply_outcome(status: u16, text: Option<Seq<char>>) -> Result<
    Seq<char>,
    InferenceErrorView,
> {
    if is_server_error(status) {
        Err(InferenceErrorView::ServiceUnavailable(status))
    } else {
        match text {
            None => Err(InferenceErrorView::MalformedResponse),
            Some(found) => if is_client_error(status) {
                Err(InferenceErrorView::ClientError(found))
            } else {
                Ok(trimmed(found))
            },
        }
    }
}

impl GenerateRequest {
    /// The request that asks for a command for `prompt`, with the settings of
    /// `config`: it goes to `generate` below the base address.
    pub fn new(config: &Config, prompt: String) -> (r: GenerateRequest)
        ensures
            r.url@ == config.api_base@ + "/generate"@,
            r.model@ == config.model@,
            !r.stream,
            r.system@ == system_prompt(),
            r.prompt@ == prompt@,
    {
        let mut url = config.api_base.clone();
        url.append("/generate");
        GenerateRequest {
            url,
            model: config.model.clone(),
            stream: false,
            system: String::from_str(
                "You are a helpful assistant who is specialized in generating one-liner shell command based on user prompt. Reply only the command and absolutely nothing else. The assistant, only",
            ),
            prompt,
        }
    }
}

/// What a reply with this status means, once `text` has been read from its
/// body: the string under [`reply_path`], or nothing where the body is not a
/// JSON document or holds no string there.
pub fn resolve_reply(status: u16, text: Option<&str>) -> (r: Result<String, InferenceError>)
    ensures
        generation_view(r) == reply_outcome(
            status,
            match text {
                Some(found) => Some(found@),
                None => None,
            },
        ),
{
    if 500 <= status && status < 600 {
        Err(InferenceError::ServiceUnavailable(status))
    } else {
        match text {
            None => Err(InferenceError::MalformedResponse),
            Some(found) => if 400 <= status && status < 500 {
                Err(InferenceError::ClientError(found.to_owned()))
            } else {
                Ok(trim(found).to_owned())
            },
        }
    }
}

/// What the reply with this status and this body means. The body of a failed
/// service is not looked at; any other body is read as a JSON document.
pub fn interpret_response(status: u16, body: &[u8]) -> (r: Result<String, InferenceError>)
    ensures
        generation_view(r) == reply_outcome(
            status,
            text_at(parsed_texts(body@), reply_path(status)),
        ),
        is_server_error(status) ==> generation_view(r) == Err::<Seq<char>, InferenceErrorView>(
            InferenceErrorView::ServiceUnavailable(status),
        ),
{
    if 500 <= status && status < 600 {
        return resolve_reply(status, None);
    }
    match parse_document(body) {
        Err(_) => resolve_reply(status, None),
        Ok(document) => {
            if 400 <= status && status < 500 {
                let error = member(&document, "error");
                let message = member(error, "message");
                proof {
                    let path = seq!["error"@] + (seq!["message"@] + Seq::<Seq<char>>::empty());
                    assert(path =~= reply_path(status));
                }
                resolve_reply(status, message.as_str())
            } else {
                let response = member(&document, "response");
                proof {
                    let path = seq!["response"@] + Seq::<Seq<char>>::empty();
                    assert(path =~= reply_path(status));
                }
                resolve_reply(status, response.as_str())
            }
        },
    }
}

} // verus!
