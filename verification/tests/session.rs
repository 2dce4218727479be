use shai::api::{ExplanationError, RefineError, SuggestionError};
use shai::config::{Config, ConfigError};
use shai::domain::{FeedbackError, Model, ModelError, Prompt, PromptError, ShellCommand};
use shai::executor::ExecutionError;
use shai::session::{Action, Event, Failure, Notice, Session, Status};
use shai::ui::{ChoiceError, InteractionResult};

fn words(ws: &[&str]) -> Vec<String> {
    ws.iter().map(|w| w.to_string()).collect()
}

fn cmd(s: &str) -> ShellCommand {
    ShellCommand::new(s.to_string()).ok().unwrap()
}

fn config(key: &str, model: &str) -> Config {
    Config { api_key: key.into(), api_url: "https://api.x.ai/v1".into(), model: model.into() }
}

fn choosing(command: &str) -> Session {
    Session::Choosing {
        prompt: Prompt::new("find pdf files".into()).ok().unwrap(),
        model: Model::new("grok".into()).ok().unwrap(),
        command: cmd(command),
    }
}

#[test]
fn no_arguments_ask_for_a_description() {
    let (s, step) = Session::new().advance(Event::Started(Vec::new()));
    assert!(s.is_done());
    assert!(matches!(step.action, Action::Exit));
    assert_eq!(step.notices, vec![Notice::Usage]);
    assert_eq!(step.notices[0].message(), "Please provide a description of what you want to do.");
}

#[test]
fn blank_description_is_refused() {
    let (s, step) = Session::new().advance(Event::Started(words(&[" ", "\t"])));
    assert!(s.is_done());
    assert_eq!(step.notices, vec![Notice::Error(Failure::Prompt(PromptError::Empty))]);
    assert_eq!(step.notices[0].message(), "Prompt cannot be empty");
}

#[test]
fn a_full_session_that_runs_the_command() {
    let (s, step) = Session::new().advance(Event::Started(words(&["find", "pdf", "files"])));
    match &s {
        Session::LoadingConfig { prompt } => assert_eq!(prompt.as_str(), "find pdf files"),
        other => panic!("unexpected {:?}", other),
    }
    assert!(matches!(step.action, Action::LoadConfig));

    let (s, step) = s.advance(Event::ConfigLoaded(Ok(config("key", "grok"))));
    assert!(matches!(s, Session::Connecting { .. }));
    match &step.action {
        Action::Connect(c) => assert_eq!(c.api_key, "key"),
        other => panic!("unexpected {:?}", other),
    }

    let (s, step) = s.advance(Event::Connected);
    assert_eq!(step.notices, vec![Notice::Info(Status::Thinking)]);
    match &step.action {
        Action::RequestSuggestion(r) => {
            assert_eq!(r.model, "grok");
            assert_eq!(r.user, "find pdf files");
            assert!(r.json_object);
        }
        other => panic!("unexpected {:?}", other),
    }

    let (s, step) = s.advance(Event::SuggestionReceived(Ok(cmd("find . -name '*.pdf'"))));
    match &step.action {
        Action::AskChoice(c) => assert_eq!(c.as_str(), "find . -name '*.pdf'"),
        other => panic!("unexpected {:?}", other),
    }

    let (s, step) = s.advance(Event::ChoiceMade(Ok(InteractionResult::Run)));
    assert_eq!(step.notices, vec![Notice::Info(Status::Executing)]);
    match &step.action {
        Action::Execute(c) => assert_eq!(c.as_str(), "find . -name '*.pdf'"),
        other => panic!("unexpected {:?}", other),
    }

    let (s, step) = s.advance(Event::Executed(Ok(())));
    assert!(s.is_done());
    assert!(step.notices.is_empty());
    assert!(matches!(step.action, Action::Exit));
}

#[test]
fn missing_configuration_is_offered_then_entered_and_saved() {
    let (s, _) = Session::new().advance(Event::Started(words(&["ls"])));
    let (s, step) = s.advance(Event::ConfigLoaded(Ok(Config::default())));
    assert!(step.notices.is_empty());
    assert!(matches!(step.action, Action::OfferConfiguration));

    let (s, step) = s.advance(Event::ConfigurationOffered(true));
    assert!(matches!(step.action, Action::AskConfiguration));

    let (s, step) = s.advance(Event::ConfigurationEntered(Ok(config("k", "m"))));
    match &step.action {
        Action::SaveConfig(c) => assert_eq!(c.model, "m"),
        other => panic!("unexpected {:?}", other),
    }

    let (s, step) = s.advance(Event::ConfigSaved(Err(ConfigError::Write("denied".into()))));
    assert_eq!(step.notices, vec![Notice::Error(Failure::Save(ConfigError::Write("denied".into())))]);
    assert_eq!(step.notices[0].message(), "Failed to save configuration: Write error: denied");
    assert!(matches!(step.action, Action::Connect(_)));
    assert!(matches!(s, Session::Connecting { .. }));
}

#[test]
fn failed_load_is_shown_and_declining_ends_the_session() {
    let (s, _) = Session::new().advance(Event::Started(words(&["ls"])));
    let (s, step) = s.advance(Event::ConfigLoaded(Err(ConfigError::Parse("bad".into()))));
    assert_eq!(step.notices, vec![Notice::Error(Failure::Config(ConfigError::Parse("bad".into())))]);
    assert!(matches!(step.action, Action::OfferConfiguration));
    let (s, step) = s.advance(Event::ConfigurationOffered(false));
    assert!(s.is_done());
    assert!(matches!(step.action, Action::Exit));
}

#[test]
fn blank_model_ends_the_session() {
    let (s, _) = Session::new().advance(Event::Started(words(&["ls"])));
    let (s, step) = s.advance(Event::ConfigLoaded(Ok(config("key", "  "))));
    assert!(s.is_done());
    assert_eq!(step.notices, vec![Notice::Error(Failure::Model(ModelError::Empty))]);
    assert!(matches!(step.action, Action::Exit));
}

#[test]
fn cancel_ends_without_running() {
    let (s, step) = choosing("rm -rf build").advance(Event::ChoiceMade(Ok(InteractionResult::Cancel)));
    assert!(s.is_done());
    assert_eq!(step.notices, vec![Notice::Info(Status::Canceled)]);
    assert_eq!(step.notices[0].message(), "Canceled.");
    assert!(matches!(step.action, Action::Exit));
}

#[test]
fn explain_keeps_the_command() {
    let (s, step) = choosing("du -sh").advance(Event::ChoiceMade(Ok(InteractionResult::Explain)));
    assert_eq!(step.notices, vec![Notice::Info(Status::GettingExplanation)]);
    match &step.action {
        Action::RequestExplanation(r) => {
            assert_eq!(r.user, "du -sh");
            assert!(!r.json_object);
        }
        other => panic!("unexpected {:?}", other),
    }
    let (s, step) = s.advance(Event::ExplanationReceived(Ok("Disk usage.".into())));
    assert_eq!(step.notices, vec![Notice::Explanation("Disk usage.".into())]);
    match (&s, &step.action) {
        (Session::Choosing { command, .. }, Action::AskChoice(c)) => {
            assert_eq!(command.as_str(), "du -sh");
            assert_eq!(c.as_str(), "du -sh");
        }
        other => panic!("unexpected {:?}", other),
    }
    let (_, step) = s
        .advance(Event::ChoiceMade(Ok(InteractionResult::Explain)))
        .0
        .advance(Event::ExplanationReceived(Err(ExplanationError::BadResponse)));
    assert_eq!(step.notices, vec![Notice::Error(Failure::Explanation(ExplanationError::BadResponse))]);
    assert!(matches!(&step.action, Action::AskChoice(c) if c.as_str() == "du -sh"));
}

#[test]
fn refine_replaces_the_command_on_success_only() {
    let (s, step) = choosing("find .").advance(Event::ChoiceMade(Ok(InteractionResult::Refine(
        "only pdf".into(),
    ))));
    assert_eq!(step.notices, vec![Notice::Info(Status::Refining)]);
    match &step.action {
        Action::RequestRefinement(r) => assert_eq!(
            r.user,
            "Original request: find pdf files\nOriginal command: find .\nFeedback: only pdf"
        ),
        other => panic!("unexpected {:?}", other),
    }
    let (s, step) = s.advance(Event::RefinementReceived(Ok(cmd("find . -name '*.pdf'"))));
    assert!(matches!(&step.action, Action::AskChoice(c) if c.as_str() == "find . -name '*.pdf'"));
    assert!(matches!(&s, Session::Choosing { command, .. } if command.as_str() == "find . -name '*.pdf'"));

    let (s, _) = s.advance(Event::ChoiceMade(Ok(InteractionResult::Refine("smaller".into()))));
    let (s, step) = s.advance(Event::RefinementReceived(Err(RefineError::ApiCall("429".into()))));
    assert_eq!(step.notices[0].message(), "API call failed: 429");
    assert!(matches!(&s, Session::Choosing { command, .. } if command.as_str() == "find . -name '*.pdf'"));
}

#[test]
fn blank_feedback_offers_the_menu_again() {
    let (s, step) = choosing("ls").advance(Event::ChoiceMade(Ok(InteractionResult::Refine("  ".into()))));
    assert_eq!(step.notices[0].message(), "Feedback cannot be empty");
    assert!(matches!(&step.action, Action::AskChoice(c) if c.as_str() == "ls"));
    assert!(matches!(s, Session::Choosing { .. }));
}

#[test]
fn failures_end_the_session() {
    let (s, step) = choosing("ls").advance(Event::ChoiceMade(Err(ChoiceError::InputError("eof".into()))));
    assert!(s.is_done());
    assert_eq!(step.notices[0].message(), "Input error: eof");

    let (s, step) = Session::Executing.advance(Event::Executed(Err(ExecutionError::CommandFailed("x".into()))));
    assert!(s.is_done());
    assert_eq!(step.notices[0].message(), "Command execution failed: x");

    let suggesting = Session::Suggesting {
        prompt: Prompt::new("p".into()).ok().unwrap(),
        model: Model::new("m".into()).ok().unwrap(),
    };
    let (s, step) = suggesting.advance(Event::SuggestionReceived(Err(SuggestionError::BadResponse)));
    assert!(s.is_done());
    assert_eq!(step.notices[0].message(), "The API did not respond a usable response");
}

#[test]
fn finished_sessions_stay_finished() {
    let (s, step) = Session::Done.advance(Event::ChoiceMade(Ok(InteractionResult::Run)));
    assert!(s.is_done());
    assert!(step.notices.is_empty());
    assert!(matches!(step.action, Action::Exit));
}

#[test]
fn unexpected_events_end_the_session() {
    let (s, step) = choosing("ls").advance(Event::Connected);
    assert!(s.is_done());
    assert!(matches!(step.action, Action::Exit));
}

#[test]
fn status_messages() {
    assert_eq!(Status::Thinking.message(), "Thinking...");
    assert_eq!(Status::Executing.message(), "Executing...");
    assert_eq!(Status::GettingExplanation.message(), "Getting explanation...");
    assert_eq!(Status::Refining.message(), "Refining...");
    assert_eq!(Status::Canceled.message(), "Canceled.");
}

#[test]
fn failure_messages() {
    let cases: Vec<(Failure, &str)> = vec![
        (Failure::Prompt(PromptError::Empty), "Prompt cannot be empty"),
        (Failure::Model(ModelError::Empty), "Model name cannot be empty"),
        (Failure::Feedback(FeedbackError::Empty), "Feedback cannot be empty"),
        (Failure::Config(ConfigError::Read("r".into())), "Read error: r"),
        (Failure::Setup(shai::ui::PromptError::InputError("i".into())), "Input error: i"),
        (Failure::Save(ConfigError::Path("p".into())), "Failed to save configuration: Path error: p"),
        (Failure::Suggestion(SuggestionError::ApiCall("a".into())), "API call failed: a"),
        (Failure::Explanation(ExplanationError::ApiCall("b".into())), "API call failed: b"),
        (Failure::Refine(RefineError::BadResponse), "The API did not respond a usable response"),
        (Failure::Choice(ChoiceError::InputError("c".into())), "Input error: c"),
        (Failure::Execution(ExecutionError::CommandFailed("d".into())), "Command execution failed: d"),
    ];
    for (f, text) in cases {
        assert_eq!(f.message(), text);
        assert_eq!(Notice::Error(f).message(), text);
    }
    assert_eq!(Notice::Explanation("why".into()).message(), "why");
    assert_eq!(Notice::Info(Status::Thinking).message(), "Thinking...");
}
