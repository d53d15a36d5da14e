# markcheck

The verified core of an interactive checklist: a Markdown file with task lists
is worked through card by card in the terminal, every change is written back to
the file at once, and each change can be committed and pushed by git in the
background.

## What the library does

- `model`, `document`, `order`: the document with its lists and cards, the
  questions the application asks about them, and document order.
- `writer`: the text that is written back. It differs from the file in the
  marker characters of tasks alone.
- `app_state`, `app_spec`, `app`, `app_search`, `app_write`, `app_keys`,
  `input`: the application as a state machine. `app_spec` says what each action
  does to the mathematical model of the state; the executable functions of the
  other modules are proved to do exactly that.
- `clipboard`: which text a copy takes, and by which way.
- `config`: where the configuration file is, and what it comes to.
- `script`, `git_step`, `git_text`, `git_flow`, `git_push`, `git_commit`,
  `git_run`, `git_sync`: git-sync. A job is a procedure that asks for one step
  at a time and decides by the replies; `git_run::advance` says which step is
  next, given the replies so far.
- `app_laws`, `input_laws`, `task_laws`, `cursor_laws`, `git_laws`,
  `git_safety`, `git_checked`: what holds of all of this together.

## How it is used

The library does no input or output. The event loop hands it keys, clicks, the
time and what is known of the file, and does what it asks for: a change that
waits to be written is resolved by `AppState::resolve_write` and reported back
by `finish_write` or `finish_conflict`; a text to copy is taken by
`take_copy_request`; a change to commit by `take_git_sync_request`. `app/` holds
such a loop's parts for a terminal.
