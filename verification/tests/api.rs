use shai::api::{
    explanation_from_reply, explanation_request, refined_command, refinement_content,
    refinement_request, suggested_command, suggestion_content, suggestion_request, CommandReply,
    ExplanationError, RefineError, SuggestionError,
};
use shai::domain::{Feedback, Model, Prompt, ShellCommand};

fn model() -> Model {
    Model::new("grok-4".to_string()).ok().unwrap()
}

#[test]
fn suggestion_request_asks_for_a_json_command() {
    let prompt = Prompt::new("list docker containers".to_string()).ok().unwrap();
    let r = suggestion_request(&model(), &prompt);
    assert_eq!(r.model, "grok-4");
    assert_eq!(r.user, "list docker containers");
    assert!(r.json_object);
    assert_eq!(
        r.system,
        "You are a shell command assistant. Your goal is to translate natural language into a single, valid shell command. Return a JSON object with a single key 'command'. Target shell is bash/zsh."
    );
}

#[test]
fn explanation_request_asks_for_plain_text() {
    let command = ShellCommand::new("du -sh *".to_string()).ok().unwrap();
    let r = explanation_request(&model(), &command);
    assert_eq!(r.user, "du -sh *");
    assert!(!r.json_object);
    assert!(r.system.starts_with("Explain the following shell command concisely and clearly."));
    assert!(r.system.ends_with("use only plain text, no markdown or other formatting"));
}

#[test]
fn refinement_request_carries_prompt_command_and_feedback() {
    let prompt = Prompt::new("find pdfs".to_string()).ok().unwrap();
    let command = ShellCommand::new("find . -name '*.pdf'".to_string()).ok().unwrap();
    let feedback = Feedback::new("only larger than 10MB".to_string()).ok().unwrap();
    let r = refinement_request(&model(), &prompt, &command, &feedback);
    assert_eq!(
        r.user,
        "Original request: find pdfs\nOriginal command: find . -name '*.pdf'\nFeedback: only larger than 10MB"
    );
    assert!(r.json_object);
    assert_eq!(
        r.system,
        "You are a shell command assistant. The user wants to refine a previously suggested command. Return a JSON object with a single key 'command'. Target shell is bash/zsh."
    );
}

#[test]
fn suggestion_replies() {
    assert_eq!(
        suggestion_content(Err("timeout".into())),
        Err(SuggestionError::ApiCall("timeout".into()))
    );
    assert_eq!(suggestion_content(Ok(None)), Err(SuggestionError::BadResponse));
    assert_eq!(suggestion_content(Ok(Some("{}".into()))), Ok("{}".to_string()));
    assert!(matches!(suggested_command(None), Err(SuggestionError::BadResponse)));
    assert!(matches!(
        suggested_command(Some(CommandReply { command: "  ".into() })),
        Err(SuggestionError::BadResponse)
    ));
    let c = suggested_command(Some(CommandReply { command: "ls -la".into() })).ok().unwrap();
    assert_eq!(c.as_str(), "ls -la");
}

#[test]
fn refinement_replies() {
    assert_eq!(
        refinement_content(Err("401".into())),
        Err(RefineError::ApiCall("401".into()))
    );
    assert_eq!(refinement_content(Ok(None)), Err(RefineError::BadResponse));
    assert_eq!(refinement_content(Ok(Some("x".into()))), Ok("x".to_string()));
    assert!(matches!(refined_command(None), Err(RefineError::BadResponse)));
    assert!(matches!(
        refined_command(Some(CommandReply { command: "".into() })),
        Err(RefineError::BadResponse)
    ));
    let c = refined_command(Some(CommandReply { command: "ls -S".into() })).ok().unwrap();
    assert_eq!(c.as_str(), "ls -S");
}

#[test]
fn explanation_is_trimmed() {
    assert_eq!(
        explanation_from_reply(Ok(Some("\n  Lists files.  \n".into()))),
        Ok("Lists files.".to_string())
    );
    assert_eq!(explanation_from_reply(Ok(Some("   ".into()))), Ok(String::new()));
    assert_eq!(explanation_from_reply(Ok(None)), Err(ExplanationError::BadResponse));
    assert_eq!(
        explanation_from_reply(Err("down".into())),
        Err(ExplanationError::ApiCall("down".into()))
    );
}

#[test]
fn api_error_messages() {
    assert_eq!(SuggestionError::ApiCall("e".into()).message(), "API call failed: e");
    assert_eq!(
        SuggestionError::BadResponse.message(),
        "The API did not respond a usable response"
    );
    assert_eq!(ExplanationError::ApiCall("e".into()).message(), "API call failed: e");
    assert_eq!(
        ExplanationError::BadResponse.message(),
        "The API did not respond a usable response"
    );
    assert_eq!(RefineError::ApiCall("e".into()).message(), "API call failed: e");
    assert_eq!(RefineError::BadResponse.message(), "The API did not respond a usable response");
}
