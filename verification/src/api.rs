//! The chat-completion exchanges: the request for a suggestion, an
//! explanation or a refinement, and how each reply is read.

use vstd::prelude::*;
use crate::domain::{Feedback, Model, Prompt, ShellCommand};
use crate::text::{is_blank, trim, trimmed};

verus! {

/// Why no command could be suggested.
#[derive(Debug, Clone, PartialEq, Eq)]
pub enum SuggestionError {
    /// The call to the service failed; its description.
    ApiCall(String),
    /// The reply held no usable command.
    BadResponse,
}

/// Why no explanation could be had.
#[derive(Debug, Clone, PartialEq, Eq)]
pub enum ExplanationError {
    /// The call to the service failed; its description.
    ApiCall(String),
    /// The reply held no text.
    BadResponse,
}

/// Why a command could not be refined.
#[derive(Debug, Clone, PartialEq, Eq)]
pub enum RefineError {
    /// The call to the service failed; its description.
    ApiCall(String),
    /// The reply held no usable command.
    BadResponse,
}

/// The text shown when the call itself failed.
pub open spec fn api_call_text(d: Seq<char>) -> Seq<char> {
    "API call failed: "@ + d
}

/// The text shown when the reply was not usable.
pub open spec fn bad_response_text() -> Seq<char> {
    "The API did not respond a usable response"@
}

/// The text shown for this error.
pub open spec fn suggestion_error_text(e: SuggestionError) -> Seq<char> {
    match e {
        SuggestionError::ApiCall(d) => api_call_text(d@),
        SuggestionError::BadResponse => bad_response_text(),
    }
}

impl SuggestionError {
    /// The text shown to the user for this error.
    pub fn message(&self) -> (res: String)
        ensures
            res@ == suggestion_error_text(*self),
            *self matches SuggestionError::ApiCall(d) ==> res@ == "API call failed: "@ + d@,
            *self == SuggestionError::BadResponse ==> res@ == "The API did not respond a usable response"@,
    {
        match self {
            SuggestionError::ApiCall(d) => String::from_str("API call failed: ").concat(d.as_str()),
            SuggestionError::BadResponse => String::from_str(
                "The API did not respond a usable response",
            ),
        }
    }
}

/// The text shown for this error.
pub open spec fn explanation_error_text(e: ExplanationError) -> Seq<char> {
    match e {
        ExplanationError::ApiCall(d) => api_call_text(d@),
        ExplanationError::BadResponse => bad_response_text(),
    }
}

impl ExplanationError {
    /// The text shown to the user for this error.
    pub fn message(&self) -> (res: String)
        ensures
            res@ == explanation_error_text(*self),
            *self matches ExplanationError::ApiCall(d) ==> res@ == "API call failed: "@ + d@,
            *self == ExplanationError::BadResponse ==> res@ == "The API did not respond a usable response"@,
    {
        match self {
            ExplanationError::ApiCall(d) => String::from_str("API call failed: ").concat(d.as_str()),
            ExplanationError::BadResponse => String::from_str(
                "The API did not respond a usable response",
            ),
        }
    }
}

/// The text shown for this error.
pub open spec fn refine_error_text(e: RefineError) -> Seq<char> {
    match e {
        RefineError::ApiCall(d) => api_call_text(d@),
        RefineError::BadResponse => bad_response_text(),
    }
}

impl RefineError {
    /// The text shown to the user for this error.
    pub fn message(&self) -> (res: String)
        ensures
            res@ == refine_error_text(*self),
            *self matches RefineError::ApiCall(d) ==> res@ == "API call failed: "@ + d@,
            *self == RefineError::BadResponse ==> res@ == "The API did not respond a usable response"@,
    {
        match self {
            RefineError::ApiCall(d) => String::from_str("API call failed: ").concat(d.as_str()),
            RefineError::BadResponse => String::from_str(
                "The API did not respond a usable response",
            ),
        }
    }
}

/// A chat-completion request: the model, the system message, the user
/// message, and whether the reply must be a JSON object.
#[derive(Debug)]
pub struct ChatRequest {
    pub model: String,
    pub system: String,
    pub user: String,
    pub json_object: bool,
}

/// The system message of a suggestion request.
pub open spec fn suggestion_instructions() -> Seq<char> {
    "You are a shell command assistant. Your goal is to translate natural language into a single, valid shell command. Return a JSON object with a single key 'command'. Target shell is bash/zsh."@
}

/// The system message of an explanation request.
pub open spec fn explanation_instructions() -> Seq<char> {
    "Explain the following shell command concisely and clearly. Break down what each part and flag does. The explanation will be displayed to a human user in a terminal, format accordingly: use only plain text, no markdown or other formatting"@
}

/// The system message of a refinement request.
pub open spec fn refinement_instructions() -> Seq<char> {
    "You are a shell command assistant. The user wants to refine a previously suggested command. Return a JSON object with a single key 'command'. Target shell is bash/zsh."@
}

/// The user message of a refinement request.
pub open spec fn refinement_message(
    prompt: Seq<char>,
    command: Seq<char>,
    feedback: Seq<char>,
) -> Seq<char> {
    "Original request: "@ + prompt + "\nOriginal command: "@ + command + "\nFeedback: "@ + feedback
}

/// The refinement message is the three parts, each after its label, in
/// order: it starts with the original request and ends with the whole
/// feedback.
pub proof fn lemma_refinement_message_parts(prompt: Seq<char>, command: Seq<char>, feedback: Seq<char>)
    ensures
        refinement_message(prompt, command, feedback) == "Original request: "@ + prompt
            + "\nOriginal command: "@ + command + "\nFeedback: "@ + feedback,
        refinement_message(prompt, command, feedback).len() == 48 + prompt.len() + command.len()
            + feedback.len(),
        refinement_message(prompt, command, feedback).skip(
            refinement_message(prompt, command, feedback).len() - feedback.len(),
        ) == feedback,
        refinement_message(prompt, command, feedback).take(18 + prompt.len() as int) == "Original request: "@
            + prompt,
{
    reveal_strlit("Original request: ");
    reveal_strlit("\nOriginal command: ");
    reveal_strlit("\nFeedback: ");
    let m = refinement_message(prompt, command, feedback);
    let head = "Original request: "@ + prompt + "\nOriginal command: "@ + command + "\nFeedback: "@;
    assert(m == head + feedback);
    assert(m.skip(m.len() - feedback.len()) =~= feedback);
    assert(m.take(18 + prompt.len() as int) =~= "Original request: "@ + prompt);
}

/// `r` is the request with these parts.
pub open spec fn request_is(
    r: ChatRequest,
    model: Seq<char>,
    system: Seq<char>,
    user: Seq<char>,
    json_object: bool,
) -> bool {
    &&& r.model@ == model
    &&& r.system@ == system
    &&& r.user@ == user
    &&& r.json_object == json_object
}

/// The request for a command that does what `prompt` asks.
pub fn suggestion_request(model: &Model, prompt: &Prompt) -> (res: ChatRequest)
    ensures
        request_is(res, model@, suggestion_instructions(), prompt@, true),
        res.model@ == model@,
        res.system@ == "You are a shell command assistant. Your goal is to translate natural language into a single, valid shell command. Return a JSON object with a single key 'command'. Target shell is bash/zsh."@,
        res.user@ == prompt@,
        res.json_object,
{
    ChatRequest {
        model: String::from_str(model.as_str()),
        system: String::from_str(
            "You are a shell command assistant. Your goal is to translate natural language into a single, valid shell command. Return a JSON object with a single key 'command'. Target shell is bash/zsh.",
        ),
        user: String::from_str(prompt.as_str()),
        json_object: true,
    }
}

/// The request for a plain-text explanation of `command`.
pub fn explanation_request(model: &Model, command: &ShellCommand) -> (res: ChatRequest)
    ensures
        request_is(res, model@, explanation_instructions(), command@, false),
        res.model@ == model@,
        res.system@ == "Explain the following shell command concisely and clearly. Break down what each part and flag does. The explanation will be displayed to a human user in a terminal, format accordingly: use only plain text, no markdown or other formatting"@,
        res.user@ == command@,
        !res.json_object,
{
    ChatRequest {
        model: String::from_str(model.as_str()),
        system: String::from_str(
            "Explain the following shell command concisely and clearly. Break down what each part and flag does. The explanation will be displayed to a human user in a terminal, format accordingly: use only plain text, no markdown or other formatting",
        ),
        user: String::from_str(command.as_str()),
        json_object: false,
    }
}

/// The request for a better command, given the original prompt, the command
/// suggested for it and the user's feedback on that command.
pub fn refinement_request(
    model: &Model,
    prompt: &Prompt,
    command: &ShellCommand,
    feedback: &Feedback,
) -> (res: ChatRequest)
    ensures
        request_is(
            res,
            model@,
            refinement_instructions(),
            refinement_message(prompt@, command@, feedback@),
            true,
        ),
        res.model@ == model@,
        res.system@ == "You are a shell command assistant. The user wants to refine a previously suggested command. Return a JSON object with a single key 'command'. Target shell is bash/zsh."@,
        res.user@ == "Original request: "@ + prompt@ + "\nOriginal command: "@ + command@
            + "\nFeedback: "@ + feedback@,
        res.json_object,
{
    let mut user = String::from_str("Original request: ");
    user.append(prompt.as_str());
    user.append("\nOriginal command: ");
    user.append(command.as_str());
    user.append("\nFeedback: ");
    user.append(feedback.as_str());
    ChatRequest {
        model: String::from_str(model.as_str()),
        system: String::from_str(
            "You are a shell command assistant. The user wants to refine a previously suggested command. Return a JSON object with a single key 'command'. Target shell is bash/zsh.",
        ),
        user,
        json_object: true,
    }
}

/// The JSON object that a suggestion or refinement reply must hold:
/// `{"command": ...}`.
#[derive(Debug)]
pub struct CommandReply {
    pub command: String,
}

/// Reads the outcome of a suggestion call: either the description of the
/// failed call, or the content of the first choice of the reply, if any.
pub fn suggestion_content(reply: Result<Option<String>, String>) -> (res: Result<
    String,
    SuggestionError,
>)
    ensures
        match reply {
            Err(e) => res == Err::<String, SuggestionError>(SuggestionError::ApiCall(e)),
            Ok(None) => res == Err::<String, SuggestionError>(SuggestionError::BadResponse),
            Ok(Some(c)) => res == Ok::<String, SuggestionError>(c),
        },
{
    match reply {
        Err(e) => Err(SuggestionError::ApiCall(e)),
        Ok(None) => Err(SuggestionError::BadResponse),
        Ok(Some(c)) => Ok(c),
    }
}

/// The suggested command, from the content parsed as a command reply
/// (`None` when it was not one); a blank command is no usable response.
pub fn suggested_command(parsed: Option<CommandReply>) -> (res: Result<
    ShellCommand,
    SuggestionError,
>)
    ensures
        match parsed {
            None => res == Err::<ShellCommand, SuggestionError>(SuggestionError::BadResponse),
            Some(r) => if is_blank(r.command@) {
                res == Err::<ShellCommand, SuggestionError>(SuggestionError::BadResponse)
            } else {
                res matches Ok(c) && c@ == r.command@
            },
        },
{
    match parsed {
        None => Err(SuggestionError::BadResponse),
        Some(r) => match ShellCommand::new(r.command) {
            Ok(c) => Ok(c),
            Err(_) => Err(SuggestionError::BadResponse),
        },
    }
}

/// Reads the outcome of an explanation call: the content of the first choice,
/// trimmed.
pub fn explanation_from_reply(reply: Result<Option<String>, String>) -> (res: Result<
    String,
    ExplanationError,
>)
    ensures
        match reply {
            Err(e) => res == Err::<String, ExplanationError>(ExplanationError::ApiCall(e)),
            Ok(None) => res == Err::<String, ExplanationError>(ExplanationError::BadResponse),
            Ok(Some(c)) => res matches Ok(t) && t@ == trim(c@),
        },
{
    match reply {
        Err(e) => Err(ExplanationError::ApiCall(e)),
        Ok(None) => Err(ExplanationError::BadResponse),
        Ok(Some(c)) => Ok(trimmed(c.as_str())),
    }
}

/// Reads the outcome of a refinement call, as `suggestion_content` does.
pub fn refinement_content(reply: Result<Option<String>, String>) -> (res: Result<
    String,
    RefineError,
>)
    ensures
        match reply {
            Err(e) => res == Err::<String, RefineError>(RefineError::ApiCall(e)),
            Ok(None) => res == Err::<String, RefineError>(RefineError::BadResponse),
            Ok(Some(c)) => res == Ok::<String, RefineError>(c),
        },
{
    match reply {
        Err(e) => Err(RefineError::ApiCall(e)),
        Ok(None) => Err(RefineError::BadResponse),
        Ok(Some(c)) => Ok(c),
    }
}

/// The refined command, from the content parsed as a command reply, as
/// `suggested_command` does.
pub fn refined_command(parsed: Option<CommandReply>) -> (res: Result<ShellCommand, RefineError>)
    ensures
        match parsed {
            None => res == Err::<ShellCommand, RefineError>(RefineError::BadResponse),
            Some(r) => if is_blank(r.command@) {
                res == Err::<ShellCommand, RefineError>(RefineError::BadResponse)
            } else {
                res matches Ok(c) && c@ == r.command@
            },
        },
{
    match parsed {
        None => Err(RefineError::BadResponse),
        Some(r) => match ShellCommand::new(r.command) {
            Ok(c) => Ok(c),
            Err(_) => Err(RefineError::BadResponse),
        },
    }
}

} // verus!
