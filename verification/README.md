# shai

`shai` turns a description in plain English into a shell command, then lets
the user run it, have it explained, refine it with feedback, or cancel.

- `src/` is the verified library (Verus):
  - `text`: Unicode white space, blank texts, trimming, joining words, the
    text after the last `/`;
  - `domain`: `Prompt`, `ShellCommand`, `Model`, `Feedback`, never blank;
  - `config`: the configuration and its errors;
  - `api`: the chat-completion requests and how replies are read;
  - `executor`: the shell invocation, the history file, execution outcomes;
  - `ui`: the menu and the configuration answers;
  - `errors`: application-wide error kinds;
  - `session`: the interactive session as a state machine, with its laws.
- `app/` is the program: terminal, files, network and processes, driving
  `session::Session` one event at a time.
- `tests/` exercise the library on concrete values.
