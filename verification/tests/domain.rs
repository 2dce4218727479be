use shai::domain::{
    Feedback, FeedbackError, Model, ModelError, Prompt, PromptError, ShellCommand,
    ShellCommandError,
};

const SAMPLES: [&str; 14] = [
    "",
    " ",
    "\t\n\r",
    "\u{0b}\u{0c}",
    "\u{85}",
    "\u{a0}",
    "\u{1680}\u{2000}\u{200a}",
    "\u{2028}\u{2029}\u{202f}\u{205f}\u{3000}",
    "\u{200b}",
    "ls",
    "  ls -la  ",
    "\u{3000}x\u{3000}",
    "find . -name '*.pdf'",
    "\u{feff}",
];

#[test]
fn prompt_keeps_its_text() {
    let p = Prompt::new("find all pdf files".to_string()).ok().unwrap();
    assert_eq!(p.as_str(), "find all pdf files");
    let q = Prompt::new("  padded  ".to_string()).ok().unwrap();
    assert_eq!(q.as_str(), "  padded  ");
    assert_eq!(q.clone().as_str(), "  padded  ");
}

#[test]
fn prompt_refuses_blank_text() {
    assert!(matches!(Prompt::new(String::new()), Err(PromptError::Empty)));
    assert!(matches!(Prompt::new(" \t\n ".to_string()), Err(PromptError::Empty)));
    assert!(matches!(Prompt::new("\u{3000}\u{a0}".to_string()), Err(PromptError::Empty)));
}

#[test]
fn constructors_refuse_exactly_what_trims_to_nothing() {
    for s in SAMPLES {
        let blank = s.trim().is_empty();
        assert_eq!(Prompt::new(s.to_string()).is_err(), blank, "{:?}", s);
        assert_eq!(ShellCommand::new(s.to_string()).is_err(), blank, "{:?}", s);
        assert_eq!(Model::new(s.to_string()).is_err(), blank, "{:?}", s);
        assert_eq!(Feedback::new(s.to_string()).is_err(), blank, "{:?}", s);
    }
}

#[test]
fn zero_width_space_is_not_white_space() {
    let c = ShellCommand::new("\u{200b}".to_string()).ok().unwrap();
    assert_eq!(c.as_str(), "\u{200b}");
}

#[test]
fn other_values_keep_their_text() {
    assert_eq!(ShellCommand::new("ls -la".to_string()).ok().unwrap().as_str(), "ls -la");
    assert_eq!(Model::new("grok-4".to_string()).ok().unwrap().as_str(), "grok-4");
    assert_eq!(Feedback::new("only pdfs".to_string()).ok().unwrap().as_str(), "only pdfs");
    assert!(matches!(ShellCommand::new(" ".to_string()), Err(ShellCommandError::Empty)));
    assert!(matches!(Model::new("".to_string()), Err(ModelError::Empty)));
    assert!(matches!(Feedback::new("\n".to_string()), Err(FeedbackError::Empty)));
}

#[test]
fn domain_error_messages() {
    assert_eq!(PromptError::Empty.message(), "Prompt cannot be empty");
    assert_eq!(ShellCommandError::Empty.message(), "Command cannot be empty");
    assert_eq!(ModelError::Empty.message(), "Model name cannot be empty");
    assert_eq!(FeedbackError::Empty.message(), "Feedback cannot be empty");
}
