use shai::domain::ShellCommand;
use shai::executor::{
    execution_outcome, history_file, history_line, shell_invocation, ExecutionError,
    HistoryError, HistoryFile,
};

fn cmd(s: &str) -> ShellCommand {
    ShellCommand::new(s.to_string()).ok().unwrap()
}

#[test]
fn histfile_wins() {
    assert_eq!(
        history_file(Some("/tmp/h".into()), Some("/bin/bash".into()), true),
        Ok(HistoryFile::At("/tmp/h".into()))
    );
    assert_eq!(
        history_file(Some("".into()), None, false),
        Ok(HistoryFile::At("".into()))
    );
}

#[test]
fn known_shells_use_their_file_in_home() {
    assert_eq!(
        history_file(None, Some("/bin/bash".into()), true),
        Ok(HistoryFile::InHome(".bash_history".into()))
    );
    assert_eq!(
        history_file(None, Some("/usr/local/bin/zsh".into()), true),
        Ok(HistoryFile::InHome(".zsh_history".into()))
    );
    assert_eq!(
        history_file(None, Some("zsh".into()), true),
        Ok(HistoryFile::InHome(".zsh_history".into()))
    );
}

#[test]
fn no_history_file_otherwise() {
    assert_eq!(history_file(None, Some("/bin/bash".into()), false), Err(HistoryError::NoHistoryFile));
    assert_eq!(history_file(None, Some("/usr/bin/fish".into()), true), Err(HistoryError::NoHistoryFile));
    assert_eq!(history_file(None, None, true), Err(HistoryError::NoHistoryFile));
    assert_eq!(history_file(None, Some("/bin/bash/".into()), true), Err(HistoryError::NoHistoryFile));
}

#[test]
fn command_runs_through_the_shell() {
    let inv = shell_invocation(Some("/bin/zsh".into()), &cmd("ls | wc -l"));
    assert_eq!(inv.program, "/bin/zsh");
    assert_eq!(inv.args, vec!["-c".to_string(), "ls | wc -l".to_string()]);
    let inv = shell_invocation(None, &cmd("true"));
    assert_eq!(inv.program, "sh");
    assert_eq!(inv.args, vec!["-c".to_string(), "true".to_string()]);
}

#[test]
fn history_line_ends_with_newline() {
    assert_eq!(history_line(&cmd("echo hi")), "echo hi\n");
}

#[test]
fn execution_outcomes() {
    assert_eq!(execution_outcome(Ok((true, "exit status: 0".into()))), Ok(()));
    assert_eq!(
        execution_outcome(Ok((false, "exit status: 2".into()))),
        Err(ExecutionError::CommandFailed("Command exited with status: exit status: 2".into()))
    );
    assert_eq!(
        execution_outcome(Err("No such file or directory".into())),
        Err(ExecutionError::CommandFailed("No such file or directory".into()))
    );
}

#[test]
fn executor_error_messages() {
    assert_eq!(HistoryError::NoHistoryFile.message(), "No history file configured");
    assert_eq!(
        HistoryError::WriteFailed("denied".into()).message(),
        "Failed to write to history file: denied"
    );
    assert_eq!(
        ExecutionError::CommandFailed("boom".into()).message(),
        "Command execution failed: boom"
    );
}
