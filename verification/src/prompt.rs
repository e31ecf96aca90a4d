//! The prompt that is sent to the inference service.

use crate::text::{blank, is_blank, join_words, joined};
use vstd::prelude::*;
use vstd::string::StringExecFns;

verus! {

/// The platform that the generated command is meant for.
#[derive(Clone, Copy, Debug, PartialEq, Eq, Structural)]
pub enum Platform {
    MacOs,
    Linux,
    Other,
}

/// Why no prompt could be built.
#[derive(Clone, Copy, Debug, PartialEq, Eq, Structural)]
pub enum PromptError {
    /// The request is empty or holds white space only.
    Empty,
}

/// What one run was asked for: the user's words, joined by single spaces,
/// and the platform.
#[derive(Clone, Debug, PartialEq, Eq)]
pub struct RunRequest {
    pub prompt_text: String,
    pub os_hint: Platform,
}

/// The lines that follow the request in every prompt: they open a shell
/// script and leave the service to complete it.
pub open spec fn scaffold() -> Seq<char> {
    ":\n```bash\n#!/bin/bash\n"@
}

/// The prompt for the request `prompt` on `platform`: the request as it is,
/// then the platform's hint, then the scaffold.
pub open spec fn prompt_text(prompt: Seq<char>, platform: Platform) -> Seq<char> {
    prompt + platform.hint_text() + scaffold()
}

impl Platform {
    /// The words that tell the service which platform is meant.
    pub open spec fn hint_text(self) -> Seq<char> {
        match self {
            Platform::MacOs => " (on macOS)"@,
            Platform::Linux => " (on Linux)"@,
            Platform::Other => ""@,
        }
    }

    /// The words that tell the service which platform is meant; none for a
    /// platform other than macOS and Linux.
    pub fn hint(self) -> (r: &'static str)
        ensures
            r@ == self.hint_text(),
    {
        match self {
            Platform::MacOs => " (on macOS)",
            Platform::Linux => " (on Linux)",
            Platform::Other => "",
        }
    }
}

impl RunRequest {
    /// A request is well formed when its text is not blank.
    pub open spec fn wf(&self) -> bool {
        !blank(self.prompt_text@)
    }

    /// The request made of `words`, joined by single spaces. It is refused
    /// where the joined words are blank.
    pub fn new(words: &Vec<String>, platform: Platform) -> (r: Result<RunRequest, PromptError>)
        ensures
            r is Err <==> blank(joined(words.deep_view(), " "@)),
            r matches Ok(request) ==> request.wf() && request.os_hint == platform
                && request.prompt_text@ == joined(words.deep_view(), " "@),
    {
        let text = join_words(words);
        if is_blank(text.as_str()) {
            Err(PromptError::Empty)
        } else {
            Ok(RunRequest { prompt_text: text, os_hint: platform })
        }
    }

    /// The prompt for this request.
    pub fn prompt(&self) -> (r: String)
        ensures
            r@ == prompt_text(self.prompt_text@, self.os_hint),
    {
        assemble(self.prompt_text.as_str(), self.os_hint)
    }
}

/// Builds the prompt for the request `prompt` on `platform`. A blank request
/// is refused; any other is followed by the platform's hint and the scaffold.
pub fn build_prompt(prompt: &str, platform: Platform) -> (r: Result<String, PromptError>)
    ensures
        r is Err <==> blank(prompt@),
        r matches Ok(text) ==> text@ == prompt_text(prompt@, platform),
{
    if is_blank(prompt) {
        Err(PromptError::Empty)
    } else {
        Ok(assemble(prompt, platform))
    }
}

fn assemble(prompt: &str, platform: Platform) -> (r: String)
    ensures
        r@ == prompt_text(prompt@, platform),
{
    let mut text = String::from_str(prompt);
    text.append(platform.hint());
    text.append(":\n```bash\n#!/bin/bash\n");
    text
}

} // verus!
