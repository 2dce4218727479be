//! The interactive session as a state machine. Each event (the outcome of
//! something done outside: reading the arguments, loading the configuration,
//! asking the user, calling the service, running the command) moves the
//! session to its next state and says what to show and what to do next.

use vstd::prelude::*;
use crate::api::{
    explanation_error_text, explanation_instructions, explanation_request, refine_error_text,
    refinement_instructions, refinement_message, refinement_request, request_is,
    suggestion_error_text, suggestion_instructions, suggestion_request, ChatRequest,
    ExplanationError, RefineError, SuggestionError, lemma_refinement_message_parts,
};
use crate::config::{config_error_text, Config, ConfigError};
use crate::domain::{Feedback, FeedbackError, Model, ModelError, Prompt, PromptError, ShellCommand};
use crate::executor::{execution_error_text, ExecutionError};
use crate::text::{
    is_blank, join_words, join_with_spaces, lemma_join_length, lemma_join_words_at_offsets,
    total_length, word_offset,
};
use crate::ui::{self, choice_error_text, prompt_error_text, ChoiceError, InteractionResult};

verus! {

/// Progress reports shown while the session works.
#[derive(Debug, Clone, Copy, PartialEq, Eq)]
pub enum Status {
    Thinking,
    Executing,
    GettingExplanation,
    Refining,
    Canceled,
}

/// The text of a progress report.
pub open spec fn status_text(s: Status) -> Seq<char> {
    match s {
        Status::Thinking => "Thinking..."@,
        Status::Executing => "Executing..."@,
        Status::GettingExplanation => "Getting explanation..."@,
        Status::Refining => "Refining..."@,
        Status::Canceled => "Canceled."@,
    }
}

impl Status {
    /// The text shown for this report.
    pub fn message(&self) -> (res: String)
        ensures
            res@ == status_text(*self),
            *self == Status::Thinking ==> res@ == "Thinking..."@,
            *self == Status::Executing ==> res@ == "Executing..."@,
            *self == Status::GettingExplanation ==> res@ == "Getting explanation..."@,
            *self == Status::Refining ==> res@ == "Refining..."@,
            *self == Status::Canceled ==> res@ == "Canceled."@,
    {
        match self {
            Status::Thinking => String::from_str("Thinking..."),
            Status::Executing => String::from_str("Executing..."),
            Status::GettingExplanation => String::from_str("Getting explanation..."),
            Status::Refining => String::from_str("Refining..."),
            Status::Canceled => String::from_str("Canceled."),
        }
    }
}

/// Everything that can go wrong in a session, each kept as it came.
#[derive(Debug, Clone, PartialEq, Eq)]
pub enum Failure {
    /// The description given on the command line is blank.
    Prompt(PromptError),
    /// The configured model name is blank.
    Model(ModelError),
    /// The feedback for a refinement is blank.
    Feedback(FeedbackError),
    /// The configuration could not be loaded.
    Config(ConfigError),
    /// The configuration could not be read from the user.
    Setup(ui::PromptError),
    /// The configuration entered could not be saved.
    Save(ConfigError),
    Suggestion(SuggestionError),
    Explanation(ExplanationError),
    Refine(RefineError),
    Choice(ChoiceError),
    Execution(ExecutionError),
}

/// The text shown for a failure.
pub open spec fn failure_text(f: Failure) -> Seq<char> {
    match f {
        Failure::Prompt(_) => "Prompt cannot be empty"@,
        Failure::Model(_) => "Model name cannot be empty"@,
        Failure::Feedback(_) => "Feedback cannot be empty"@,
        Failure::Config(e) => config_error_text(e),
        Failure::Setup(e) => prompt_error_text(e),
        Failure::Save(e) => "Failed to save configuration: "@ + config_error_text(e),
        Failure::Suggestion(e) => suggestion_error_text(e),
        Failure::Explanation(e) => explanation_error_text(e),
        Failure::Refine(e) => refine_error_text(e),
        Failure::Choice(e) => choice_error_text(e),
        Failure::Execution(e) => execution_error_text(e),
    }
}

impl Failure {
    /// The text shown for this failure.
    pub fn message(&self) -> (res: String)
        ensures
            res@ == failure_text(*self),
            *self matches Failure::Save(e) ==> res@ == "Failed to save configuration: "@ + config_error_text(e),
            *self matches Failure::Prompt(_) ==> res@ == "Prompt cannot be empty"@,
            *self matches Failure::Model(_) ==> res@ == "Model name cannot be empty"@,
            *self matches Failure::Feedback(_) ==> res@ == "Feedback cannot be empty"@,
            *self matches Failure::Config(e) ==> res@ == config_error_text(e),
            *self matches Failure::Setup(e) ==> res@ == prompt_error_text(e),
            *self matches Failure::Suggestion(e) ==> res@ == suggestion_error_text(e),
            *self matches Failure::Explanation(e) ==> res@ == explanation_error_text(e),
            *self matches Failure::Refine(e) ==> res@ == refine_error_text(e),
            *self matches Failure::Choice(e) ==> res@ == choice_error_text(e),
            *self matches Failure::Execution(e) ==> res@ == execution_error_text(e),
    {
        match self {
            Failure::Prompt(e) => e.message(),
            Failure::Model(e) => e.message(),
            Failure::Feedback(e) => e.message(),
            Failure::Config(e) => e.message(),
            Failure::Setup(e) => e.message(),
            Failure::Save(e) => {
                let detail = e.message();
                String::from_str("Failed to save configuration: ").concat(detail.as_str())
            },
            Failure::Suggestion(e) => e.message(),
            Failure::Explanation(e) => e.message(),
            Failure::Refine(e) => e.message(),
            Failure::Choice(e) => e.message(),
            Failure::Execution(e) => e.message(),
        }
    }
}

/// Something to show the user.
#[derive(Debug, Clone, PartialEq, Eq)]
pub enum Notice {
    /// How to use the program: no description was given.
    Usage,
    /// A progress report.
    Info(Status),
    /// A failure.
    Error(Failure),
    /// The explanation of the current command.
    Explanation(String),
}

/// The text of a notice.
pub open spec fn notice_text(n: Notice) -> Seq<char> {
    match n {
        Notice::Usage => "Please provide a description of what you want to do."@,
        Notice::Info(s) => status_text(s),
        Notice::Error(f) => failure_text(f),
        Notice::Explanation(t) => t@,
    }
}

impl Notice {
    /// The text shown for this notice.
    pub fn message(&self) -> (res: String)
        ensures
            res@ == notice_text(*self),
            *self matches Notice::Explanation(t) ==> res@ == t@,
            *self matches Notice::Info(st) ==> res@ == status_text(st),
            *self matches Notice::Error(f) ==> res@ == failure_text(f),
            *self == Notice::Usage ==> res@ == "Please provide a description of what you want to do."@,
    {
        match self {
            Notice::Usage => String::from_str("Please provide a description of what you want to do."),
            Notice::Info(s) => s.message(),
            Notice::Error(f) => f.message(),
            Notice::Explanation(t) => t.clone(),
        }
    }
}

/// What to do next.
#[derive(Debug)]
pub enum Action {
    /// Load the configuration file.
    LoadConfig,
    /// Ask whether to configure now.
    OfferConfiguration,
    /// Ask the user for the configuration.
    AskConfiguration,
    /// Save this configuration.
    SaveConfig(Config),
    /// Set up the connection to the service with this configuration.
    Connect(Config),
    /// Ask the service for a command.
    RequestSuggestion(ChatRequest),
    /// Show this command and ask what to do with it.
    AskChoice(ShellCommand),
    /// Run this command in the user's shell.
    Execute(ShellCommand),
    /// Ask the service for an explanation.
    RequestExplanation(ChatRequest),
    /// Ask the service for a better command.
    RequestRefinement(ChatRequest),
    /// End the session.
    Exit,
}

/// The outcome of one transition: what to show, in order, then what to do.
#[derive(Debug)]
pub struct Step {
    pub notices: Vec<Notice>,
    pub action: Action,
}

/// What happened outside since the last step.
pub enum Event {
    /// The program started with these words as its arguments.
    Started(Vec<String>),
    /// The configuration file was loaded, or not.
    ConfigLoaded(Result<Config, ConfigError>),
    /// The user answered whether to configure now.
    ConfigurationOffered(bool),
    /// The user entered a configuration, or reading it failed.
    ConfigurationEntered(Result<Config, ui::PromptError>),
    /// The configuration was saved, or not.
    ConfigSaved(Result<(), ConfigError>),
    /// The connection to the service is set up.
    Connected,
    SuggestionReceived(Result<ShellCommand, SuggestionError>),
    ChoiceMade(Result<InteractionResult, ChoiceError>),
    Executed(Result<(), ExecutionError>),
    ExplanationReceived(Result<String, ExplanationError>),
    RefinementReceived(Result<ShellCommand, RefineError>),
}

/// Where the session stands. `prompt` is what the user first asked for,
/// `model` the model to ask, `command` the command currently suggested.
#[derive(Debug)]
pub enum Session {
    Starting,
    LoadingConfig { prompt: Prompt },
    OfferingConfiguration { prompt: Prompt },
    Configuring { prompt: Prompt },
    SavingConfig { prompt: Prompt, config: Config },
    Connecting { prompt: Prompt, model: Model },
    Suggesting { prompt: Prompt, model: Model },
    Choosing { prompt: Prompt, model: Model, command: ShellCommand },
    Executing,
    Explaining { prompt: Prompt, model: Model, command: ShellCommand },
    Refining { prompt: Prompt, model: Model, command: ShellCommand },
    Done,
}

/// `step` shows `notices` and then does `action`.
pub open spec fn emits(step: Step, notices: Seq<Notice>, action: Action) -> bool {
    step.notices@ == notices && step.action == action
}

/// With the configuration `c` settled, after showing `before`: a blank model
/// name ends the session, any other connects with `c`.
pub open spec fn connects(
    prompt: Prompt,
    c: Config,
    before: Seq<Notice>,
    next: Session,
    step: Step,
) -> bool {
    if is_blank(c.model@) {
        &&& next == Session::Done
        &&& emits(step, before.push(Notice::Error(Failure::Model(ModelError::Empty))), Action::Exit)
    } else {
        &&& next matches Session::Connecting { prompt: p, model: m }
        &&& p == prompt
        &&& m@ == c.model@
        &&& emits(step, before, Action::Connect(c))
    }
}

/// The words of the arguments.
pub open spec fn argument_words(args: Vec<String>) -> Seq<Seq<char>> {
    args@.map_values(|w: String| w@)
}

/// The transition relation: from `state`, on `event`, the session moves to
/// `next` and takes `step`. An event that the state does not wait for ends
/// the session.
pub open spec fn transition(state: Session, event: Event, next: Session, step: Step) -> bool {
    match (state, event) {
        (Session::Starting, Event::Started(args)) => {
            if args.len() == 0 {
                next == Session::Done && emits(step, seq![Notice::Usage], Action::Exit)
            } else if is_blank(join_words(argument_words(args))) {
                &&& next == Session::Done
                &&& emits(
                    step,
                    seq![Notice::Error(Failure::Prompt(PromptError::Empty))],
                    Action::Exit,
                )
            } else {
                &&& next matches Session::LoadingConfig { prompt }
                &&& prompt@ == join_words(argument_words(args))
                &&& emits(step, seq![], Action::LoadConfig)
            }
        },
        (Session::LoadingConfig { prompt }, Event::ConfigLoaded(loaded)) => match loaded {
            Ok(c) => if is_blank(c.api_key@) {
                next == Session::OfferingConfiguration { prompt } && emits(
                    step,
                    seq![],
                    Action::OfferConfiguration,
                )
            } else {
                connects(prompt, c, seq![], next, step)
            },
            Err(e) => {
                &&& next == Session::OfferingConfiguration { prompt }
                &&& emits(step, seq![Notice::Error(Failure::Config(e))], Action::OfferConfiguration)
            },
        },
        (Session::OfferingConfiguration { prompt }, Event::ConfigurationOffered(yes)) => if yes {
            next == Session::Configuring { prompt } && emits(step, seq![], Action::AskConfiguration)
        } else {
            next == Session::Done && emits(step, seq![], Action::Exit)
        },
        (Session::Configuring { prompt }, Event::ConfigurationEntered(entered)) => match entered {
            Ok(c) => {
                &&& next == Session::SavingConfig { prompt, config: c }
                &&& emits(step, seq![], Action::SaveConfig(c))
            },
            Err(e) => next == Session::Done && emits(
                step,
                seq![Notice::Error(Failure::Setup(e))],
                Action::Exit,
            ),
        },
        (Session::SavingConfig { prompt, config }, Event::ConfigSaved(saved)) => connects(
            prompt,
            config,
            match saved {
                Ok(_) => seq![],
                Err(e) => seq![Notice::Error(Failure::Save(e))],
            },
            next,
            step,
        ),
        (Session::Connecting { prompt, model }, Event::Connected) => {
            &&& next == Session::Suggesting { prompt, model }
            &&& step.notices@ == seq![Notice::Info(Status::Thinking)]
            &&& step.action matches Action::RequestSuggestion(r)
            &&& request_is(r, model@, suggestion_instructions(), prompt@, true)
        },
        (Session::Suggesting { prompt, model }, Event::SuggestionReceived(received)) => match received {
            Ok(c) => next == Session::Choosing { prompt, model, command: c } && emits(
                step,
                seq![],
                Action::AskChoice(c),
            ),
            Err(e) => next == Session::Done && emits(
                step,
                seq![Notice::Error(Failure::Suggestion(e))],
                Action::Exit,
            ),
        },
        (Session::Choosing { prompt, model, command }, Event::ChoiceMade(made)) => match made {
            Ok(InteractionResult::Run) => next == Session::Executing && emits(
                step,
                seq![Notice::Info(Status::Executing)],
                Action::Execute(command),
            ),
            Ok(InteractionResult::Explain) => {
                &&& next == Session::Explaining { prompt, model, command }
                &&& step.notices@ == seq![Notice::Info(Status::GettingExplanation)]
                &&& step.action matches Action::RequestExplanation(r)
                &&& request_is(r, model@, explanation_instructions(), command@, false)
            },
            Ok(InteractionResult::Refine(text)) => if is_blank(text@) {
                &&& next == Session::Choosing { prompt, model, command }
                &&& emits(
                    step,
                    seq![Notice::Error(Failure::Feedback(FeedbackError::Empty))],
                    Action::AskChoice(command),
                )
            } else {
                &&& next == Session::Refining { prompt, model, command }
                &&& step.notices@ == seq![Notice::Info(Status::Refining)]
                &&& step.action matches Action::RequestRefinement(r)
                &&& request_is(
                    r,
                    model@,
                    refinement_instructions(),
                    refinement_message(prompt@, command@, text@),
                    true,
                )
            },
            Ok(InteractionResult::Cancel) => next == Session::Done && emits(
                step,
                seq![Notice::Info(Status::Canceled)],
                Action::Exit,
            ),
            Err(e) => next == Session::Done && emits(
                step,
                seq![Notice::Error(Failure::Choice(e))],
                Action::Exit,
            ),
        },
        (Session::Executing, Event::Executed(ran)) => next == Session::Done && emits(
            step,
            match ran {
                Ok(_) => seq![],
                Err(e) => seq![Notice::Error(Failure::Execution(e))],
            },
            Action::Exit,
        ),
        (
            Session::Explaining { prompt, model, command },
            Event::ExplanationReceived(received),
        ) => {
            &&& next == Session::Choosing { prompt, model, command }
            &&& emits(
                step,
                match received {
                    Ok(t) => seq![Notice::Explanation(t)],
                    Err(e) => seq![Notice::Error(Failure::Explanation(e))],
                },
                Action::AskChoice(command),
            )
        },
        (Session::Refining { prompt, model, command }, Event::RefinementReceived(received)) => match received {
            Ok(c) => next == Session::Choosing { prompt, model, command: c } && emits(
                step,
                seq![],
                Action::AskChoice(c),
            ),
            Err(e) => {
                &&& next == Session::Choosing { prompt, model, command }
                &&& emits(
                    step,
                    seq![Notice::Error(Failure::Refine(e))],
                    Action::AskChoice(command),
                )
            },
        },
        _ => next == Session::Done && emits(step, seq![], Action::Exit),
    }
}

/// The prompt the session carries, if it has one yet.
pub open spec fn session_prompt(s: Session) -> Option<Prompt> {
    match s {
        Session::LoadingConfig { prompt } => Some(prompt),
        Session::OfferingConfiguration { prompt } => Some(prompt),
        Session::Configuring { prompt } => Some(prompt),
        Session::SavingConfig { prompt, .. } => Some(prompt),
        Session::Connecting { prompt, .. } => Some(prompt),
        Session::Suggesting { prompt, .. } => Some(prompt),
        Session::Choosing { prompt, .. } => Some(prompt),
        Session::Explaining { prompt, .. } => Some(prompt),
        Session::Refining { prompt, .. } => Some(prompt),
        _ => None,
    }
}

/// A finished session stays finished and does nothing more, whatever happens.
pub proof fn lemma_done_is_final(event: Event, next: Session, step: Step)
    requires
        transition(Session::Done, event, next, step),
    ensures
        next == Session::Done,
        step.action == Action::Exit,
{
}

/// A command is run only when the user chose to run it, and then it is
/// exactly the command on offer.
pub proof fn lemma_only_run_executes(
    state: Session,
    event: Event,
    next: Session,
    step: Step,
    run: ShellCommand,
)
    requires
        transition(state, event, next, step),
        step.action == Action::Execute(run),
    ensures
        state matches Session::Choosing { command, .. } && command == run,
        event matches Event::ChoiceMade(Ok(InteractionResult::Run)),
{
}

/// Cancelling ends the session without running anything.
pub proof fn lemma_cancel_runs_nothing(
    prompt: Prompt,
    model: Model,
    command: ShellCommand,
    next: Session,
    step: Step,
)
    requires
        transition(
            Session::Choosing { prompt, model, command },
            Event::ChoiceMade(Ok(InteractionResult::Cancel)),
            next,
            step,
        ),
    ensures
        next == Session::Done,
        step.action == Action::Exit,
        !(step.action is Execute),
{
}

/// The prompt first given is the one the whole session works on: no
/// transition between two states that carry a prompt changes it.
pub proof fn lemma_prompt_is_kept(state: Session, event: Event, next: Session, step: Step)
    requires
        transition(state, event, next, step),
        session_prompt(state) is Some,
        session_prompt(next) is Some,
    ensures
        session_prompt(next) == session_prompt(state),
{
}

/// Asking for an explanation leaves the command on offer as it was, whether
/// the explanation comes or not, and offers the menu again.
pub proof fn lemma_explain_keeps_command(
    prompt: Prompt,
    model: Model,
    command: ShellCommand,
    mid: Session,
    first: Step,
    received: Result<String, ExplanationError>,
    next: Session,
    second: Step,
)
    requires
        transition(
            Session::Choosing { prompt, model, command },
            Event::ChoiceMade(Ok(InteractionResult::Explain)),
            mid,
            first,
        ),
        transition(mid, Event::ExplanationReceived(received), next, second),
    ensures
        next == (Session::Choosing { prompt, model, command }),
        second.action == Action::AskChoice(command),
{
}

/// Refining with feedback asks about the first prompt, the command on offer
/// and that feedback; a refined command replaces the one on offer, and a
/// failed refinement keeps it.
pub proof fn lemma_refine_replaces_command(
    prompt: Prompt,
    model: Model,
    command: ShellCommand,
    feedback: String,
    mid: Session,
    first: Step,
    received: Result<ShellCommand, RefineError>,
    next: Session,
    second: Step,
)
    requires
        !is_blank(feedback@),
        transition(
            Session::Choosing { prompt, model, command },
            Event::ChoiceMade(Ok(InteractionResult::Refine(feedback))),
            mid,
            first,
        ),
        transition(mid, Event::RefinementReceived(received), next, second),
    ensures
        first.action matches Action::RequestRefinement(r) && request_is(
            r,
            model@,
            refinement_instructions(),
            refinement_message(prompt@, command@, feedback@),
            true,
        ),
        match received {
            Ok(c) => next == (Session::Choosing { prompt, model, command: c }) && second.action
                == Action::AskChoice(c),
            Err(_) => next == (Session::Choosing { prompt, model, command }) && second.action
                == Action::AskChoice(command),
        },
{
}

/// Without an API key there is no configuration: loading one leads to the
/// offer to configure, as it does when loading fails.
pub proof fn lemma_missing_key_offers_configuration(
    prompt: Prompt,
    loaded: Result<Config, ConfigError>,
    next: Session,
    step: Step,
)
    requires
        transition(Session::LoadingConfig { prompt }, Event::ConfigLoaded(loaded), next, step),
        loaded matches Ok(c) ==> is_blank(c.api_key@),
    ensures
        next == (Session::OfferingConfiguration { prompt }),
        step.action == Action::OfferConfiguration,
{
}

/// A configuration that could not be saved is still used.
pub proof fn lemma_unsaved_configuration_is_used(
    prompt: Prompt,
    config: Config,
    e: ConfigError,
    next: Session,
    step: Step,
)
    requires
        !is_blank(config.model@),
        transition(
            Session::SavingConfig { prompt, config },
            Event::ConfigSaved(Err(e)),
            next,
            step,
        ),
    ensures
        step.notices@ == seq![Notice::Error(Failure::Save(e))],
        step.action == Action::Connect(config),
        next matches Session::Connecting { prompt: p, model } && p == prompt && model@
            == config.model@,
{
}

/// Saving the configuration entered, whether it succeeds or not, never
/// decides whether the session goes on: with a model name it connects with
/// exactly that configuration, showing the save failure if there was one.
pub proof fn lemma_saved_configuration_is_used(
    prompt: Prompt,
    config: Config,
    saved: Result<(), ConfigError>,
    next: Session,
    step: Step,
)
    requires
        !is_blank(config.model@),
        transition(Session::SavingConfig { prompt, config }, Event::ConfigSaved(saved), next, step),
    ensures
        next matches Session::Connecting { prompt: p, model } && p == prompt && model@
            == config.model@,
        step.action == Action::Connect(config),
        saved is Ok ==> step.notices@.len() == 0,
        saved matches Err(e) ==> step.notices@ == seq![Notice::Error(Failure::Save(e))],
{
}

/// A loaded configuration with an API key and a model name is used as it
/// is: the session connects with exactly that configuration, every field
/// unchanged, shows nothing, and asks with that model.
pub proof fn lemma_loaded_configuration_is_used(
    prompt: Prompt,
    c: Config,
    next: Session,
    step: Step,
)
    requires
        !is_blank(c.api_key@),
        !is_blank(c.model@),
        transition(Session::LoadingConfig { prompt }, Event::ConfigLoaded(Ok(c)), next, step),
    ensures
        step.action == Action::Connect(c),
        step.action matches Action::Connect(d) && d.api_key == c.api_key && d.api_url == c.api_url
            && d.model == c.model,
        step.notices@.len() == 0,
        next matches Session::Connecting { prompt: p, model } && p == prompt && model@ == c.model@,
{
}

/// A configuration without a model name ends the session with that error,
/// whether it was loaded or entered.
pub proof fn lemma_blank_model_ends(state: Session, event: Event, next: Session, step: Step)
    requires
        transition(state, event, next, step),
        match (state, event) {
            (Session::LoadingConfig { .. }, Event::ConfigLoaded(Ok(c))) => !is_blank(c.api_key@)
                && is_blank(c.model@),
            (Session::SavingConfig { config, .. }, Event::ConfigSaved(_)) => is_blank(config.model@),
            _ => false,
        },
    ensures
        next == Session::Done,
        step.action == Action::Exit,
        step.notices@.len() >= 1,
        step.notices@.last() == Notice::Error(Failure::Model(ModelError::Empty)),
{
}

/// Starting: no words ask for a description; words that join to a blank
/// text are refused; any other words, joined with single spaces, are the
/// prompt, and the configuration is loaded next.
pub proof fn lemma_start(args: Vec<String>, next: Session, step: Step)
    requires
        transition(Session::Starting, Event::Started(args), next, step),
    ensures
        args.len() == 0 ==> next == Session::Done && step.action == Action::Exit
            && step.notices@ == seq![Notice::Usage],
        args.len() > 0 && is_blank(join_words(argument_words(args))) ==> next == Session::Done
            && step.action == Action::Exit && step.notices@ == seq![
            Notice::Error(Failure::Prompt(PromptError::Empty)),
        ],
        args.len() > 0 && !is_blank(join_words(argument_words(args))) ==> {
            &&& next matches Session::LoadingConfig { prompt } && prompt@ == join_words(
                argument_words(args),
            )
            &&& step.action == Action::LoadConfig
            &&& step.notices@.len() == 0
        },
{
}

/// The prompt holds every word given, in order, each after a single space:
/// word `i` stands whole at its offset.
pub proof fn lemma_prompt_holds_every_word(args: Vec<String>, next: Session, step: Step, i: int)
    requires
        transition(Session::Starting, Event::Started(args), next, step),
        next is LoadingConfig,
        0 <= i < args.len(),
    ensures
        next matches Session::LoadingConfig { prompt } && {
            &&& prompt@.len() == total_length(argument_words(args)) + args.len() - 1
            &&& word_offset(argument_words(args), i) + args[i]@.len() <= prompt@.len()
            &&& prompt@.subrange(
                word_offset(argument_words(args), i),
                word_offset(argument_words(args), i) + args[i]@.len(),
            ) == args[i]@
        },
{
    let words = argument_words(args);
    lemma_join_length(words);
    lemma_join_words_at_offsets(words, i);
}

/// Offering and entering the configuration.
pub proof fn lemma_configuration_dialogue(state: Session, event: Event, next: Session, step: Step)
    requires
        transition(state, event, next, step),
    ensures
        state matches Session::LoadingConfig { prompt } ==> (event matches Event::ConfigLoaded(Err(
            e,
        )) ==> next == (Session::OfferingConfiguration { prompt }) && step.action
            == Action::OfferConfiguration && step.notices@ == seq![
            Notice::Error(Failure::Config(e)),
        ]),
        state matches Session::OfferingConfiguration { prompt } ==> (event
            == Event::ConfigurationOffered(true) ==> next == (Session::Configuring { prompt })
            && step.action == Action::AskConfiguration && step.notices@.len() == 0),
        state is OfferingConfiguration ==> (event == Event::ConfigurationOffered(false) ==> next
            == Session::Done && step.action == Action::Exit && step.notices@.len() == 0),
        state matches Session::Configuring { prompt } ==> (event matches Event::ConfigurationEntered(
            Ok(c),
        ) ==> next == (Session::SavingConfig { prompt, config: c }) && step.action
            == Action::SaveConfig(c) && step.notices@.len() == 0),
        state is Configuring ==> (event matches Event::ConfigurationEntered(Err(e)) ==> next
            == Session::Done && step.action == Action::Exit && step.notices@ == seq![
            Notice::Error(Failure::Setup(e)),
        ]),
{
}

/// Once connected, the service is asked for a command for the prompt, with
/// the configured model, as a JSON object.
pub proof fn lemma_suggestion_requested(prompt: Prompt, model: Model, next: Session, step: Step)
    requires
        transition(Session::Connecting { prompt, model }, Event::Connected, next, step),
    ensures
        next == (Session::Suggesting { prompt, model }),
        step.notices@ == seq![Notice::Info(Status::Thinking)],
        step.action matches Action::RequestSuggestion(r) && {
            &&& r.model@ == model@
            &&& r.user@ == prompt@
            &&& r.system@ == "You are a shell command assistant. Your goal is to translate natural language into a single, valid shell command. Return a JSON object with a single key 'command'. Target shell is bash/zsh."@
            &&& r.json_object
        },
{
}

/// A suggested command is offered; a failed suggestion ends the session.
pub proof fn lemma_suggestion_received(
    prompt: Prompt,
    model: Model,
    received: Result<ShellCommand, SuggestionError>,
    next: Session,
    step: Step,
)
    requires
        transition(
            Session::Suggesting { prompt, model },
            Event::SuggestionReceived(received),
            next,
            step,
        ),
    ensures
        received matches Ok(c) ==> next == (Session::Choosing { prompt, model, command: c })
            && step.action == Action::AskChoice(c) && step.notices@.len() == 0,
        received matches Err(e) ==> next == Session::Done && step.action == Action::Exit
            && step.notices@ == seq![Notice::Error(Failure::Suggestion(e))],
{
}

/// What each choice on the menu does with the command on offer.
pub proof fn lemma_choices(
    prompt: Prompt,
    model: Model,
    command: ShellCommand,
    made: Result<InteractionResult, ChoiceError>,
    next: Session,
    step: Step,
)
    requires
        transition(Session::Choosing { prompt, model, command }, Event::ChoiceMade(made), next, step),
    ensures
        made == Ok::<InteractionResult, ChoiceError>(InteractionResult::Run) ==> next
            == Session::Executing && step.action == Action::Execute(command) && step.notices@
            == seq![Notice::Info(Status::Executing)],
        made == Ok::<InteractionResult, ChoiceError>(InteractionResult::Explain) ==> {
            &&& next == (Session::Explaining { prompt, model, command })
            &&& step.notices@ == seq![Notice::Info(Status::GettingExplanation)]
            &&& step.action matches Action::RequestExplanation(r) && {
                &&& r.model@ == model@
                &&& r.user@ == command@
                &&& r.system@ == "Explain the following shell command concisely and clearly. Break down what each part and flag does. The explanation will be displayed to a human user in a terminal, format accordingly: use only plain text, no markdown or other formatting"@
                &&& !r.json_object
            }
        },
        made matches Ok(InteractionResult::Refine(f)) ==> (!is_blank(f@) ==> {
            &&& next == (Session::Refining { prompt, model, command })
            &&& step.notices@ == seq![Notice::Info(Status::Refining)]
            &&& step.action matches Action::RequestRefinement(r) && {
                &&& r.model@ == model@
                &&& r.user@ == "Original request: "@ + prompt@ + "\nOriginal command: "@ + command@
                    + "\nFeedback: "@ + f@
                &&& r.system@ == "You are a shell command assistant. The user wants to refine a previously suggested command. Return a JSON object with a single key 'command'. Target shell is bash/zsh."@
                &&& r.json_object
            }
        }),
        made matches Ok(InteractionResult::Refine(f)) ==> (is_blank(f@) ==> next == (
        Session::Choosing { prompt, model, command }) && step.action == Action::AskChoice(command)
            && step.notices@ == seq![Notice::Error(Failure::Feedback(FeedbackError::Empty))]),
        made == Ok::<InteractionResult, ChoiceError>(InteractionResult::Cancel) ==> next
            == Session::Done && step.action == Action::Exit && step.notices@ == seq![
            Notice::Info(Status::Canceled),
        ],
        made matches Err(e) ==> next == Session::Done && step.action == Action::Exit
            && step.notices@ == seq![Notice::Error(Failure::Choice(e))],
{
    lemma_refinement_message_parts(prompt@, command@, match made {
        Ok(InteractionResult::Refine(f)) => f@,
        _ => Seq::empty(),
    });
}

/// After running the command the session ends, showing a failure if any.
pub proof fn lemma_executed(ran: Result<(), ExecutionError>, next: Session, step: Step)
    requires
        transition(Session::Executing, Event::Executed(ran), next, step),
    ensures
        next == Session::Done,
        step.action == Action::Exit,
        ran is Ok ==> step.notices@.len() == 0,
        ran matches Err(e) ==> step.notices@ == seq![Notice::Error(Failure::Execution(e))],
{
}

/// An explanation is shown whole, as the one notice of the step, and the
/// same command is offered again; a failed explanation shows the failure
/// instead.
pub proof fn lemma_explanation_shown_whole(
    prompt: Prompt,
    model: Model,
    command: ShellCommand,
    received: Result<String, ExplanationError>,
    next: Session,
    step: Step,
)
    requires
        transition(
            Session::Explaining { prompt, model, command },
            Event::ExplanationReceived(received),
            next,
            step,
        ),
    ensures
        next == (Session::Choosing { prompt, model, command }),
        step.action == Action::AskChoice(command),
        step.notices@.len() == 1,
        received matches Ok(t) ==> step.notices@[0] == Notice::Explanation(t),
        received matches Ok(t) ==> (step.notices@[0] matches Notice::Explanation(u) && u@ == t@),
        received matches Err(e) ==> step.notices@[0] == Notice::Error(Failure::Explanation(e)),
{
}

/// A refined command replaces the one on offer; a failed refinement keeps
/// it and shows the failure.
pub proof fn lemma_refinement_received(
    prompt: Prompt,
    model: Model,
    command: ShellCommand,
    received: Result<ShellCommand, RefineError>,
    next: Session,
    step: Step,
)
    requires
        transition(
            Session::Refining { prompt, model, command },
            Event::RefinementReceived(received),
            next,
            step,
        ),
    ensures
        received matches Ok(c) ==> next == (Session::Choosing { prompt, model, command: c })
            && step.action == Action::AskChoice(c) && step.notices@.len() == 0,
        received matches Err(e) ==> next == (Session::Choosing { prompt, model, command })
            && step.action == Action::AskChoice(command) && step.notices@ == seq![
            Notice::Error(Failure::Refine(e)),
        ],
{
}

/// A step that shows an error either ends the session or offers a choice
/// again (or, for a configuration problem, goes on with the configuration).
pub proof fn lemma_errors_end_or_return(state: Session, event: Event, next: Session, step: Step)
    requires
        transition(state, event, next, step),
        exists|i: int| 0 <= i < step.notices@.len() && step.notices@[i] is Error,
    ensures
        step.action == Action::Exit || step.action is AskChoice || step.action is Connect
            || step.action is OfferConfiguration,
{
}


/// A step with these notices and this action.
fn step(notices: Vec<Notice>, action: Action) -> (res: Step)
    ensures
        res.notices == notices,
        res.action == action,
{
    Step { notices, action }
}

/// The step that ends the session, after showing `notices`.
fn finish(notices: Vec<Notice>) -> (res: (Session, Step))
    ensures
        res.0 == Session::Done,
        res.1.notices == notices,
        res.1.action == Action::Exit,
{
    (Session::Done, step(notices, Action::Exit))
}

/// Settles on the configuration `c`, after showing `before`.
fn connect(prompt: Prompt, c: Config, before: Vec<Notice>) -> (res: (Session, Step))
    ensures
        connects(prompt, c, before@, res.0, res.1),
{
    match Model::new(c.model.clone()) {
        Ok(model) => (Session::Connecting { prompt, model }, step(before, Action::Connect(c))),
        Err(e) => {
            let mut notices = before;
            notices.push(Notice::Error(Failure::Model(e)));
            finish(notices)
        },
    }
}

/// One notice.
fn one(n: Notice) -> (res: Vec<Notice>)
    ensures
        res@ == seq![n],
{
    let mut v = Vec::new();
    v.push(n);
    v
}

impl Session {
    /// A session that has not started.
    pub fn new() -> (res: Session)
        ensures
            res == Session::Starting,
    {
        Session::Starting
    }

    /// Whether the session has ended.
    pub fn is_done(&self) -> (res: bool)
        ensures
            res == (*self == Session::Done),
    {
        match self {
            Session::Done => true,
            _ => false,
        }
    }

    /// Moves the session on by one event.
    pub fn advance(self, event: Event) -> (res: (Session, Step))
        ensures
            transition(self, event, res.0, res.1),
    {
        match self {
            Session::Starting => match event {
                Event::Started(args) => {
                    if args.len() == 0 {
                        finish(one(Notice::Usage))
                    } else {
                        let joined = join_with_spaces(&args);
                        match Prompt::new(joined) {
                            Ok(prompt) => (
                                Session::LoadingConfig { prompt },
                                step(Vec::new(), Action::LoadConfig),
                            ),
                            Err(e) => finish(one(Notice::Error(Failure::Prompt(e)))),
                        }
                    }
                },
                _ => finish(Vec::new()),
            },
            Session::LoadingConfig { prompt } => match event {
                Event::ConfigLoaded(Ok(c)) => {
                    if c.has_api_key() {
                        connect(prompt, c, Vec::new())
                    } else {
                        (
                            Session::OfferingConfiguration { prompt },
                            step(Vec::new(), Action::OfferConfiguration),
                        )
                    }
                },
                Event::ConfigLoaded(Err(e)) => (
                    Session::OfferingConfiguration { prompt },
                    step(one(Notice::Error(Failure::Config(e))), Action::OfferConfiguration),
                ),
                _ => finish(Vec::new()),
            },
            Session::OfferingConfiguration { prompt } => match event {
                Event::ConfigurationOffered(yes) => {
                    if yes {
                        (Session::Configuring { prompt }, step(Vec::new(), Action::AskConfiguration))
                    } else {
                        finish(Vec::new())
                    }
                },
                _ => finish(Vec::new()),
            },
            Session::Configuring { prompt } => match event {
                Event::ConfigurationEntered(Ok(c)) => {
                    let saved = c.clone();
                    (
                        Session::SavingConfig { prompt, config: c },
                        step(Vec::new(), Action::SaveConfig(saved)),
                    )
                },
                Event::ConfigurationEntered(Err(e)) => finish(one(Notice::Error(Failure::Setup(e)))),
                _ => finish(Vec::new()),
            },
            Session::SavingConfig { prompt, config } => match event {
                Event::ConfigSaved(Ok(())) => connect(prompt, config, Vec::new()),
                Event::ConfigSaved(Err(e)) => connect(
                    prompt,
                    config,
                    one(Notice::Error(Failure::Save(e))),
                ),
                _ => finish(Vec::new()),
            },
            Session::Connecting { prompt, model } => match event {
                Event::Connected => {
                    let request = suggestion_request(&model, &prompt);
                    (
                        Session::Suggesting { prompt, model },
                        step(one(Notice::Info(Status::Thinking)), Action::RequestSuggestion(request)),
                    )
                },
                _ => finish(Vec::new()),
            },
            Session::Suggesting { prompt, model } => match event {
                Event::SuggestionReceived(Ok(c)) => {
                    let shown = c.clone();
                    (
                        Session::Choosing { prompt, model, command: c },
                        step(Vec::new(), Action::AskChoice(shown)),
                    )
                },
                Event::SuggestionReceived(Err(e)) => finish(
                    one(Notice::Error(Failure::Suggestion(e))),
                ),
                _ => finish(Vec::new()),
            },
            Session::Choosing { prompt, model, command } => match event {
                Event::ChoiceMade(Ok(InteractionResult::Run)) => (
                    Session::Executing,
                    step(one(Notice::Info(Status::Executing)), Action::Execute(command)),
                ),
                Event::ChoiceMade(Ok(InteractionResult::Explain)) => {
                    let request = explanation_request(&model, &command);
                    (
                        Session::Explaining { prompt, model, command },
                        step(
                            one(Notice::Info(Status::GettingExplanation)),
                            Action::RequestExplanation(request),
                        ),
                    )
                },
                Event::ChoiceMade(Ok(InteractionResult::Refine(text))) => {
                    match Feedback::new(text) {
                        Ok(feedback) => {
                            let request = refinement_request(&model, &prompt, &command, &feedback);
                            (
                                Session::Refining { prompt, model, command },
                                step(
                                    one(Notice::Info(Status::Refining)),
                                    Action::RequestRefinement(request),
                                ),
                            )
                        },
                        Err(e) => {
                            let shown = command.clone();
                            (
                                Session::Choosing { prompt, model, command },
                                step(
                                    one(Notice::Error(Failure::Feedback(e))),
                                    Action::AskChoice(shown),
                                ),
                            )
                        },
                    }
                },
                Event::ChoiceMade(Ok(InteractionResult::Cancel)) => finish(
                    one(Notice::Info(Status::Canceled)),
                ),
                Event::ChoiceMade(Err(e)) => finish(one(Notice::Error(Failure::Choice(e)))),
                _ => finish(Vec::new()),
            },
            Session::Executing => match event {
                Event::Executed(Ok(())) => finish(Vec::new()),
                Event::Executed(Err(e)) => finish(one(Notice::Error(Failure::Execution(e)))),
                _ => finish(Vec::new()),
            },
            Session::Explaining { prompt, model, command } => match event {
                Event::ExplanationReceived(received) => {
                    let notice = match received {
                        Ok(t) => Notice::Explanation(t),
                        Err(e) => Notice::Error(Failure::Explanation(e)),
                    };
                    let shown = command.clone();
                    (
                        Session::Choosing { prompt, model, command },
                        step(one(notice), Action::AskChoice(shown)),
                    )
                },
                _ => finish(Vec::new()),
            },
            Session::Refining { prompt, model, command } => match event {
                Event::RefinementReceived(Ok(c)) => {
                    let shown = c.clone();
                    (
                        Session::Choosing { prompt, model, command: c },
                        step(Vec::new(), Action::AskChoice(shown)),
                    )
                },
                Event::RefinementReceived(Err(e)) => {
                    let shown = command.clone();
                    (
                        Session::Choosing { prompt, model, command },
                        step(one(Notice::Error(Failure::Refine(e))), Action::AskChoice(shown)),
                    )
                },
                _ => finish(Vec::new()),
            },
            Session::Done => finish(Vec::new()),
        }
    }
}

} // verus!
