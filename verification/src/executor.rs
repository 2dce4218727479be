//! Running a command in the user's shell and recording it in the shell's
//! history: which shell, which history file, and what the outcome means.

use vstd::prelude::*;
use crate::domain::ShellCommand;
use crate::text::{after_last_slash, after_last_slash_of};

verus! {

/// Why a command could not be added to the shell history.
#[derive(Debug, Clone, PartialEq, Eq)]
pub enum HistoryError {
    /// Neither `HISTFILE` nor a known shell with a home directory says where.
    NoHistoryFile,
    /// The history file could not be opened or written; the cause.
    WriteFailed(String),
}

/// The text shown for a history error.
pub open spec fn history_error_text(e: HistoryError) -> Seq<char> {
    match e {
        HistoryError::NoHistoryFile => "No history file configured"@,
        HistoryError::WriteFailed(d) => "Failed to write to history file: "@ + d@,
    }
}

impl HistoryError {
    /// The text shown to the user for this error.
    pub fn message(&self) -> (res: String)
        ensures
            res@ == history_error_text(*self),
            *self == HistoryError::NoHistoryFile ==> res@ == "No history file configured"@,
            *self matches HistoryError::WriteFailed(d) ==> res@ == "Failed to write to history file: "@ + d@,
    {
        match self {
            HistoryError::NoHistoryFile => String::from_str("No history file configured"),
            HistoryError::WriteFailed(d) => String::from_str(
                "Failed to write to history file: ",
            ).concat(d.as_str()),
        }
    }
}

/// Why running a command failed.
#[derive(Debug, Clone, PartialEq, Eq)]
pub enum ExecutionError {
    /// The shell could not be started, or the command did not succeed; the cause.
    CommandFailed(String),
}

/// The text shown for an execution error.
pub open spec fn execution_error_text(e: ExecutionError) -> Seq<char> {
    match e {
        ExecutionError::CommandFailed(d) => "Command execution failed: "@ + d@,
    }
}

impl ExecutionError {
    /// The text shown to the user for this error.
    pub fn message(&self) -> (res: String)
        ensures
            res@ == execution_error_text(*self),
            *self matches ExecutionError::CommandFailed(d) ==> res@ == "Command execution failed: "@ + d@,
    {
        match self {
            ExecutionError::CommandFailed(d) => String::from_str("Command execution failed: ").concat(
                d.as_str(),
            ),
        }
    }
}

/// Where the history file is.
#[derive(Debug, Clone, PartialEq, Eq)]
pub enum HistoryFile {
    /// The path that `HISTFILE` names.
    At(String),
    /// A file of this name in the user's home directory.
    InHome(String),
}

/// The history file name, in the home directory, of a shell of this name.
pub open spec fn history_file_name(shell_name: Seq<char>) -> Option<Seq<char>> {
    if shell_name == "bash"@ {
        Some(".bash_history"@)
    } else if shell_name == "zsh"@ {
        Some(".zsh_history"@)
    } else {
        None
    }
}

/// The view of an optional text, empty when absent (`unwrap_or_default`).
pub open spec fn text_or_empty(s: Option<String>) -> Seq<char> {
    match s {
        Some(t) => t@,
        None => Seq::empty(),
    }
}

/// Chooses the history file from the `HISTFILE` and `SHELL` variables and
/// whether the home directory is known: `HISTFILE` wins; otherwise the shell's
/// name after its last `'/'` must be `bash` or `zsh`, with a home directory.
pub fn history_file(histfile: Option<String>, shell: Option<String>, home_known: bool) -> (res:
    Result<HistoryFile, HistoryError>)
    ensures
        histfile matches Some(p) ==> res == Ok::<HistoryFile, HistoryError>(HistoryFile::At(p)),
        histfile is None ==> match history_file_name(after_last_slash(text_or_empty(shell))) {
            Some(name) => if home_known {
                res matches Ok(HistoryFile::InHome(f)) && f@ == name
            } else {
                res == Err::<HistoryFile, HistoryError>(HistoryError::NoHistoryFile)
            },
            None => res == Err::<HistoryFile, HistoryError>(HistoryError::NoHistoryFile),
        },
        histfile is None && home_known && (shell matches Some(sh) && after_last_slash(sh@)
            == "bash"@) ==> (res matches Ok(HistoryFile::InHome(f)) && f@ == ".bash_history"@),
        histfile is None && home_known && (shell matches Some(sh) && after_last_slash(sh@)
            == "zsh"@) ==> (res matches Ok(HistoryFile::InHome(f)) && f@ == ".zsh_history"@),
        histfile is None && !home_known ==> res == Err::<HistoryFile, HistoryError>(
            HistoryError::NoHistoryFile,
        ),
        histfile is None && shell is None ==> res == Err::<HistoryFile, HistoryError>(
            HistoryError::NoHistoryFile,
        ),
        histfile is None && (shell matches Some(sh) && after_last_slash(sh@) != "bash"@
            && after_last_slash(sh@) != "zsh"@) ==> res == Err::<HistoryFile, HistoryError>(
            HistoryError::NoHistoryFile,
        ),
{
    match histfile {
        Some(p) => Ok(HistoryFile::At(p)),
        None => {
            proof {
                reveal_strlit("bash");
                reveal_strlit("zsh");
                assert("bash"@.len() != "zsh"@.len());
                assert(after_last_slash(Seq::<char>::empty()) == Seq::<char>::empty());
            }
            let shell = match shell {
                Some(s) => s,
                None => String::new(),
            };
            let name = after_last_slash_of(shell.as_str());
            let file = if name == String::from_str("bash") {
                String::from_str(".bash_history")
            } else if name == String::from_str("zsh") {
                String::from_str(".zsh_history")
            } else {
                return Err(HistoryError::NoHistoryFile);
            };
            if home_known {
                Ok(HistoryFile::InHome(file))
            } else {
                Err(HistoryError::NoHistoryFile)
            }
        },
    }
}

/// How a command is run: the program and its arguments.
#[derive(Debug)]
pub struct Invocation {
    pub program: String,
    pub args: Vec<String>,
}

/// The invocation that runs `command` in the user's shell, so that pipes,
/// redirections and the shell's own features work: the shell that `SHELL`
/// names (else `sh`), given `-c` and the command line.
pub fn shell_invocation(shell: Option<String>, command: &ShellCommand) -> (res: Invocation)
    ensures
        res.program@ == match shell {
            Some(s) => s@,
            None => "sh"@,
        },
        res.args@.len() == 2,
        res.args@[0]@ == "-c"@,
        res.args@[1]@ == command@,
{
    let program = match shell {
        Some(s) => s,
        None => String::from_str("sh"),
    };
    let mut args = Vec::new();
    args.push(String::from_str("-c"));
    args.push(String::from_str(command.as_str()));
    Invocation { program, args }
}

/// The line added to the history file for `command`.
pub fn history_line(command: &ShellCommand) -> (res: String)
    ensures
        res@ == command@ + "\n"@,
{
    String::from_str(command.as_str()).concat("\n")
}

/// What running a command came to, given either the reason the shell could
/// not be started, or whether it exited successfully together with the
/// description of its exit status.
pub fn execution_outcome(run: Result<(bool, String), String>) -> (res: Result<(), ExecutionError>)
    ensures
        match run {
            Err(e) => res == Err::<(), ExecutionError>(ExecutionError::CommandFailed(e)),
            Ok((true, _)) => res is Ok,
            Ok((false, status)) => res matches Err(ExecutionError::CommandFailed(d)) && d@
                == "Command exited with status: "@ + status@,
        },
{
    match run {
        Err(e) => Err(ExecutionError::CommandFailed(e)),
        Ok((success, status)) => {
            if success {
                Ok(())
            } else {
                Err(
                    ExecutionError::CommandFailed(
                        String::from_str("Command exited with status: ").concat(status.as_str()),
                    ),
                )
            }
        },
    }
}

} // verus!
