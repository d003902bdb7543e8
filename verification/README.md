# agmawrite

The decision-making core of agmawrite, a small Markdown editor with a
vim-like preview canvas, find, review comments and an unsaved-changes
guard, written in Verus and proved against its contracts.

## Layout

- `src/` — the verified library. Each module states its behaviour over
  mathematical models (`Seq`, `Map`, spec functions and views) and proves
  it; cross-cutting properties stand as `law_*` proof functions.
  - `interaction`, `pending`, `bindings`, `keymap`, `command` — the input
    state machine: surfaces, popups, pending counts and prefixes, and the
    routing of key events to commands.
  - `document`, `comment_workflow` — reducers for the document's
    persistence and the comments sidebar: from state and message to the
    next state and the work the shell performs.
  - `coordinator` — the editor's step over every feature: which feature a
    message reaches, how their consequences feed each other, and the
    outside work left for the shell.
  - `find`, `preview`, `editing`, `highlight`, `inline`, `scan` — text
    logic: matching, list continuation, Markdown marker ranges and fenced
    code tracking.
  - `comments`, `status`, `help`, `cli`, `shell` — the comment model,
    status-line wording, the shortcut reference, argument parsing and
    layout proportions.
  - `text` — character and string primitives, and the trusted wrappers
    around `char` classes and `unicode-segmentation`.
- `tests/` — executable tests of the library.
- `app/` — the unverified shell: start-up, the loop that performs each
  step's outside work, file dialogs and disk I/O, and the file watcher,
  which hand plain values to the library.
