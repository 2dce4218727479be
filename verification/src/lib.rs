//! Verified core of `shai`, a natural-language front end for the shell:
//! the validated domain values, the text rules they rest on, the shapes of
//! the requests sent to a chat-completion service and the reading of its
//! replies, the choice of history file and shell, and the interactive
//! session as a state machine.

pub mod text;
pub mod domain;
pub mod config;
pub mod errors;
pub mod executor;
pub mod api;
pub mod ui;
pub mod session;
