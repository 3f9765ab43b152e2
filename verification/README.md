# demo_sqlite

The logic of a SQLite zone demo: a sequencer that batches queued SQL
statements into chain inscriptions, and a read-only terminal interface over
the resulting database. The library in `src/` is verified with Verus:

- `state` — the zone state (published and finalized messages) and its
  replay-idempotence laws;
- `sequencer` — reading the statement queue, framing a batch, reacting to
  chain events, channel and key files;
- `tui` — the interface's event handling, selection and screen layout;
- `screen` — the rules of the screen guard;
- `logging` — raw-mode log output;
- `config` — colors, styles and themes, and the configuration file search;
- `error`, `text`, `args` — errors, decimal text, command-line settings.

`app/` holds the terminal, file and clipboard plumbing that calls the library.
