//! Validated domain values: a prompt, a shell command, a model name and a
//! piece of feedback are each a text that is not blank.

use vstd::prelude::*;
use crate::text::{is_blank, str_is_blank};

verus! {

/// What the user asked for, in natural language; never blank.
#[derive(Debug)]
pub struct Prompt(String);

/// Why a prompt was refused.
#[derive(Debug, Clone, Copy, PartialEq, Eq)]
pub enum PromptError {
    /// It holds nothing but white space.
    Empty,
}

impl PromptError {
    /// The text shown to the user for this error.
    pub fn message(&self) -> (res: String)
        ensures
            res@ == "Prompt cannot be empty"@,
    {
        match self {
            PromptError::Empty => String::from_str("Prompt cannot be empty"),
        }
    }
}

impl View for Prompt {
    type V = Seq<char>;

    closed spec fn view(&self) -> Seq<char> {
        self.0@
    }
}

impl Prompt {
    #[verifier::type_invariant]
    spec fn not_blank(self) -> bool {
        !is_blank(self.0@)
    }

    /// Accepts `content` unless it is blank (`trim().is_empty()`).
    pub fn new(content: String) -> (res: Result<Self, PromptError>)
        ensures
            res is Err <==> is_blank(content@),
            res matches Ok(v) ==> v@ == content@,
    {
        if str_is_blank(content.as_str()) {
            Err(PromptError::Empty)
        } else {
            Ok(Prompt(content))
        }
    }

    /// The text, which is never blank.
    pub fn as_str(&self) -> (res: &str)
        ensures
            res@ == self@,
            !is_blank(res@),
    {
        proof {
            use_type_invariant(self);
        }
        self.0.as_str()
    }
}

impl Clone for Prompt {
    fn clone(&self) -> (res: Self)
        ensures
            res == *self,
    {
        proof {
            use_type_invariant(self);
        }
        Prompt(self.0.clone())
    }
}

/// A shell command line; never blank.
#[derive(Debug)]
pub struct ShellCommand(String);

/// Why a shell command was refused.
#[derive(Debug, Clone, Copy, PartialEq, Eq)]
pub enum ShellCommandError {
    /// It holds nothing but white space.
    Empty,
}

impl ShellCommandError {
    /// The text shown to the user for this error.
    pub fn message(&self) -> (res: String)
        ensures
            res@ == "Command cannot be empty"@,
    {
        match self {
            ShellCommandError::Empty => String::from_str("Command cannot be empty"),
        }
    }
}

impl View for ShellCommand {
    type V = Seq<char>;

    closed spec fn view(&self) -> Seq<char> {
        self.0@
    }
}

impl ShellCommand {
    #[verifier::type_invariant]
    spec fn not_blank(self) -> bool {
        !is_blank(self.0@)
    }

    /// Accepts `command` unless it is blank (`trim().is_empty()`).
    pub fn new(command: String) -> (res: Result<Self, ShellCommandError>)
        ensures
            res is Err <==> is_blank(command@),
            res matches Ok(v) ==> v@ == command@,
    {
        if str_is_blank(command.as_str()) {
            Err(ShellCommandError::Empty)
        } else {
            Ok(ShellCommand(command))
        }
    }

    /// The text, which is never blank.
    pub fn as_str(&self) -> (res: &str)
        ensures
            res@ == self@,
            !is_blank(res@),
    {
        proof {
            use_type_invariant(self);
        }
        self.0.as_str()
    }
}

impl Clone for ShellCommand {
    fn clone(&self) -> (res: Self)
        ensures
            res == *self,
    {
        proof {
            use_type_invariant(self);
        }
        ShellCommand(self.0.clone())
    }
}

/// The name of the chat model to ask; never blank.
#[derive(Debug)]
pub struct Model(String);

/// Why a model name was refused.
#[derive(Debug, Clone, Copy, PartialEq, Eq)]
pub enum ModelError {
    /// It holds nothing but white space.
    Empty,
}

impl ModelError {
    /// The text shown to the user for this error.
    pub fn message(&self) -> (res: String)
        ensures
            res@ == "Model name cannot be empty"@,
    {
        match self {
            ModelError::Empty => String::from_str("Model name cannot be empty"),
        }
    }
}

impl View for Model {
    type V = Seq<char>;

    closed spec fn view(&self) -> Seq<char> {
        self.0@
    }
}

impl Model {
    #[verifier::type_invariant]
    spec fn not_blank(self) -> bool {
        !is_blank(self.0@)
    }

    /// Accepts `name` unless it is blank (`trim().is_empty()`).
    pub fn new(name: String) -> (res: Result<Self, ModelError>)
        ensures
            res is Err <==> is_blank(name@),
            res matches Ok(v) ==> v@ == name@,
    {
        if str_is_blank(name.as_str()) {
            Err(ModelError::Empty)
        } else {
            Ok(Model(name))
        }
    }

    /// The text, which is never blank.
    pub fn as_str(&self) -> (res: &str)
        ensures
            res@ == self@,
            !is_blank(res@),
    {
        proof {
            use_type_invariant(self);
        }
        self.0.as_str()
    }
}

impl Clone for Model {
    fn clone(&self) -> (res: Self)
        ensures
            res == *self,
    {
        proof {
            use_type_invariant(self);
        }
        Model(self.0.clone())
    }
}

/// What the user says to improve a suggested command; never blank.
#[derive(Debug)]
pub struct Feedback(String);

/// Why a feedback was refused.
#[derive(Debug, Clone, Copy, PartialEq, Eq)]
pub enum FeedbackError {
    /// It holds nothing but white space.
    Empty,
}

impl FeedbackError {
    /// The text shown to the user for this error.
    pub fn message(&self) -> (res: String)
        ensures
            res@ == "Feedback cannot be empty"@,
    {
        match self {
            FeedbackError::Empty => String::from_str("Feedback cannot be empty"),
        }
    }
}

impl View for Feedback {
    type V = Seq<char>;

    closed spec fn view(&self) -> Seq<char> {
        self.0@
    }
}

impl Feedback {
    #[verifier::type_invariant]
    spec fn not_blank(self) -> bool {
        !is_blank(self.0@)
    }

    /// Accepts `content` unless it is blank (`trim().is_empty()`).
    pub fn new(content: String) -> (res: Result<Self, FeedbackError>)
        ensures
            res is Err <==> is_blank(content@),
            res matches Ok(v) ==> v@ == content@,
    {
        if str_is_blank(content.as_str()) {
            Err(FeedbackError::Empty)
        } else {
            Ok(Feedback(content))
        }
    }

    /// The text, which is never blank.
    pub fn as_str(&self) -> (res: &str)
        ensures
            res@ == self@,
            !is_blank(res@),
    {
        proof {
            use_type_invariant(self);
        }
        self.0.as_str()
    }
}

impl Clone for Feedback {
    fn clone(&self) -> (res: Self)
        ensures
            res == *self,
    {
        proof {
            use_type_invariant(self);
        }
        Feedback(self.0.clone())
    }
}

} // verus!
