//! The application-wide error kinds.

use vstd::prelude::*;

verus! {

/// An error of the application as a whole, by the area it comes from;
/// each carries a description.
#[derive(Debug, Clone, PartialEq, Eq)]
pub enum ShaiError {
    ApiError(String),
    EnvError(String),
    ExecutionError(String),
    InputError(String),
}

/// The text shown for an application error.
pub open spec fn shai_error_text(e: ShaiError) -> Seq<char> {
    match e {
        ShaiError::ApiError(d) => "API error: "@ + d@,
        ShaiError::EnvError(d) => "Environment error: "@ + d@,
        ShaiError::ExecutionError(d) => "Execution error: "@ + d@,
        ShaiError::InputError(d) => "Input error: "@ + d@,
    }
}

impl ShaiError {
    /// The text shown to the user for this error.
    pub fn message(&self) -> (res: String)
        ensures
            res@ == shai_error_text(*self),
            *self matches ShaiError::ApiError(d) ==> res@ == "API error: "@ + d@,
            *self matches ShaiError::EnvError(d) ==> res@ == "Environment error: "@ + d@,
            *self matches ShaiError::ExecutionError(d) ==> res@ == "Execution error: "@ + d@,
            *self matches ShaiError::InputError(d) ==> res@ == "Input error: "@ + d@,
    {
        match self {
            ShaiError::ApiError(d) => String::from_str("API error: ").concat(d.as_str()),
            ShaiError::EnvError(d) => String::from_str("Environment error: ").concat(d.as_str()),
            ShaiError::ExecutionError(d) => String::from_str("Execution error: ").concat(d.as_str()),
            ShaiError::InputError(d) => String::from_str("Input error: ").concat(d.as_str()),
        }
    }
}

} // verus!
