# gitgud

A terminal UI for git that shows every `git` command it runs, with a modal
vi-style commit editor and a slash-command prompt.

The library in `src/` holds everything the UI decides, verified with Verus:

- `commit_editor` — the modal message editor (Normal / Insert / Command).
- `prompt` — the slash-command line, its history recall and tokenizer.
- `git` — the `GitCmd` builder and its shell-style display, and the parsers
  for `git status --porcelain=v1 -z`, `git log` records and unified diffs.
- `history` — the bounded list of commands shown in the teaching bar.
- `keymap`, `action` — keys as plain values and the Status view's bindings.
- `app` — the application state machine. Key events change the state and
  queue tasks; `next_request` hands out the next `git` run and `complete`
  takes its output back.
- `ui` — the decisions behind rendering: labels and pane titles, the focused
  row, color classes, length warnings, the bottom status line and the
  commit editor's hints panel.
- `laws` — properties that span several functions.

`app/` is the program around it: terminal setup, the event loop, spawning
`git`, and drawing with ratatui.
