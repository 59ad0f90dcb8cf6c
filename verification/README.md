# corporate_assistant

A voice-driven helper for office chores: it hears a request, turns the
transcription into a canonical command, looks the command up among the
registered actions and runs it (file an issue in the tracker, mail the monthly
status report built from merged pull requests, announce the next train,
open websites, run or edit a custom script).

## Layout

- `src/` is the library, verified with Verus:
  - `text` — string search, replacement, trimming and splitting, each stated
    against a specification over `Seq<char>`;
  - `nlu`, `nlu_laws` — phrase normalisation and its properties on the
    recognised commands;
  - `interpreter` — the registry of phrases and actions;
  - `actions` — which phrases lead to which of the assistant's actions;
  - `contribs`, `contribs_laws`, `msr` — pull-request contributions, their
    merging across pages, what widening the period keeps, and the report;
  - `skm`, `jira`, `mailer`, `config`, `recording` — the data and rules
    behind the train timetable, the tracker, mail, configuration files and
    recordings;
  - `toml_text` — writing texts as TOML basic strings that read back
    unchanged;
  - `cli` — the command lines of the contributions report and of the mailer;
  - `editor` — what each event of the custom-action editor does.
- `tests/` runs the library on concrete values.
- `app/` is the program around it: speech recognition, text to speech, audio,
  windows, HTTP, SMTP and files.

## Dependencies of the program

The GitHub queries are posted as JSON with `reqwest` and read back with
`serde_json` into the reply types of `contribs`; the GraphQL schema that a
generated client would need is not part of this project. Configuration files
are read with `toml` and `serde`.
