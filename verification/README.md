# greetui

A TUI greeter for [greetd](https://git.sr.ht/~kennylevinsen/greetd), as a
verified library (`src/`) and a thin program around it (`app/`).

## Layout

- `src/` — the greeter's logic, verified with Verus:
  - `config.rs`: the settings and the rules that tie them together;
  - `state.rs`: the greeter's state, start-up, reset and prompts;
  - `keyboard.rs`: what each key press does (a spec of every binding);
  - `remember.rs`, `store.rs`: remembering users and sessions, as changes
    to a map of files;
  - `greetd.rs`: what each answer from greetd does, and the command line
    and environment that start the chosen session;
  - `desktop.rs`, `users.rs`: reading sessions from desktop entries and users
    from password-file lines;
  - `sessions.rs`, `paths.rs`, `power.rs`, `menu.rs`, `masked.rs`;
  - `style.rs`, `terminal.rs`, `util.rs`, `secret.rs`: colors, themes, escape
    sequences and layout arithmetic;
  - `vt.rs`, `numlock.rs`: the decisions of terminal switching and LEDs;
  - `laws.rs`: properties that span several calls (round trips of what is
    remembered, keys that undo one another, invariants).
- `app/` — command-line parsing, terminal and console I/O, the greetd socket
  and the event loop.
- `tests/` — the tests, run against the compiled library.
