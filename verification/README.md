# muldex

A lab for taming runaway agent loops: a reasoning harness that decides
whether a long-running coding task continues, queues, self-corrects or hands
off; a deterministic continue policy with guards against duplicate context
injection, repeated trigger-turn wakeups and compaction without progress;
provider configuration; and an interactive terminal shell around them.

The library under `src/` is verified with Verus: every function states its
result in `requires`/`ensures` contracts, and the laws the shell relies on
(an edit undone by its inverse, a history that stays free of duplicates, a
harness that never continues a stalled run, …) are proof functions.

- `src/` — the verified library: protocol types, the reasoning harness, the
  continue policy, provider resolution, the shell's editing, history, slash
  completion, key handling, Vim mode, overlay, view model, pane contents,
  Markdown rendering (pulldown-cmark parses, syntect highlights, both behind
  trusted wrappers), tool approval gate and session commands.
- `tests/` — tests run against the compiled library.
- `app/` — the `muldex` command: arguments, files, the terminal (ratatui,
  crossterm), the runtime host and daemon, and the provider turn on its own thread.
