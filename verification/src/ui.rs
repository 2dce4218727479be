//! The interactive choices: the menu offered for a suggested command, the
//! configuration questions, and their errors.

use vstd::prelude::*;
use crate::config::Config;
use crate::text::{is_blank, str_is_blank, trim, trimmed};

verus! {

/// What the user chose to do with a suggested command.
#[derive(Debug, Clone, PartialEq, Eq)]
pub enum InteractionResult {
    Run,
    Explain,
    /// Ask for a better command; the user's feedback.
    Refine(String),
    Cancel,
}

/// Reading the user's choice failed; the cause.
#[derive(Debug, Clone, PartialEq, Eq)]
pub enum ChoiceError {
    InputError(String),
}

/// Reading the configuration from the user failed; the cause.
#[derive(Debug, Clone, PartialEq, Eq)]
pub enum PromptError {
    InputError(String),
}

/// The text shown for an input error with this cause.
pub open spec fn input_error_text(d: Seq<char>) -> Seq<char> {
    "Input error: "@ + d
}

/// The text shown for this error.
pub open spec fn choice_error_text(e: ChoiceError) -> Seq<char> {
    match e {
        ChoiceError::InputError(d) => input_error_text(d@),
    }
}

impl ChoiceError {
    /// The text shown to the user for this error.
    pub fn message(&self) -> (res: String)
        ensures
            res@ == choice_error_text(*self),
            *self matches ChoiceError::InputError(d) ==> res@ == "Input error: "@ + d@,
    {
        match self {
            ChoiceError::InputError(d) => String::from_str("Input error: ").concat(d.as_str()),
        }
    }
}

/// The text shown for this error.
pub open spec fn prompt_error_text(e: PromptError) -> Seq<char> {
    match e {
        PromptError::InputError(d) => input_error_text(d@),
    }
}

impl PromptError {
    /// The text shown to the user for this error.
    pub fn message(&self) -> (res: String)
        ensures
            res@ == prompt_error_text(*self),
            *self matches PromptError::InputError(d) ==> res@ == "Input error: "@ + d@,
    {
        match self {
            PromptError::InputError(d) => String::from_str("Input error: ").concat(d.as_str()),
        }
    }
}

/// The labels of the menu, in the order in which they are offered.
pub open spec fn menu_labels() -> Seq<Seq<char>> {
    seq!["Run"@, "Explain"@, "Refine"@, "Cancel"@]
}

/// The labels of the menu offered for a suggested command; the first is the
/// default.
pub fn menu_items() -> (res: Vec<&'static str>)
    ensures
        res@.map_values(|s: &str| s@) == menu_labels(),
        res@.len() == 4,
        res@[0]@ == "Run"@,
        res@[1]@ == "Explain"@,
        res@[2]@ == "Refine"@,
        res@[3]@ == "Cancel"@,
{
    let v = vec!["Run", "Explain", "Refine", "Cancel"];
    assert(v@.map_values(|s: &str| s@) =~= menu_labels());
    assert(v@.map_values(|s: &str| s@)[3] == v@[3]@);
    v
}

/// The menu label that stands for a choice.
pub open spec fn interaction_label(r: InteractionResult) -> Seq<char> {
    match r {
        InteractionResult::Run => "Run"@,
        InteractionResult::Explain => "Explain"@,
        InteractionResult::Refine(_) => "Refine"@,
        InteractionResult::Cancel => "Cancel"@,
    }
}

/// Whether choosing the menu entry at `selection` asks for feedback.
pub fn asks_for_feedback(selection: usize) -> (res: bool)
    ensures
        res == (selection == 2),
{
    selection == 2
}

/// What choosing the menu entry at `selection` means; the feedback counts
/// only for a refinement, and any entry past the listed ones cancels.
pub fn interaction_for(selection: usize, feedback: String) -> (res: InteractionResult)
    ensures
        selection == 0 ==> res == InteractionResult::Run,
        selection == 1 ==> res == InteractionResult::Explain,
        selection == 2 ==> res == InteractionResult::Refine(feedback),
        selection > 2 ==> res == InteractionResult::Cancel,
        selection < menu_labels().len() ==> interaction_label(res) == menu_labels()[selection as int],
{
    if selection == 0 {
        InteractionResult::Run
    } else if selection == 1 {
        InteractionResult::Explain
    } else if selection == 2 {
        InteractionResult::Refine(feedback)
    } else {
        InteractionResult::Cancel
    }
}

/// The API URL offered when none is entered.
pub fn default_api_url() -> (res: String)
    ensures
        res@ == "https://api.x.ai/v1"@,
{
    String::from_str("https://api.x.ai/v1")
}

/// The model offered when none is entered.
pub fn default_model() -> (res: String)
    ensures
        res@ == "grok-4.20-0309-non-reasoning"@,
{
    String::from_str("grok-4.20-0309-non-reasoning")
}

/// Checks an API key as it is typed: a blank one is refused with a reason.
pub fn validate_api_key(input: &str) -> (res: Result<(), String>)
    ensures
        res is Err <==> is_blank(input@),
        res matches Err(m) ==> m@ == "API key cannot be empty"@,
{
    if str_is_blank(input) {
        Err(String::from_str("API key cannot be empty"))
    } else {
        Ok(())
    }
}

/// The configuration made of the answers to the configuration questions;
/// the API key is kept without its surrounding white space.
pub fn configuration_from_answers(api_key: &str, api_url: String, model: String) -> (res: Config)
    ensures
        res.api_key@ == trim(api_key@),
        res.api_url == api_url,
        res.model == model,
{
    Config { api_key: trimmed(api_key), api_url, model }
}

} // verus!
