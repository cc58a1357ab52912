# ybuild

A zero-configuration build runner: it detects which build system a directory
uses, runs the right command for the requested action (build, run, test), and
remembers the choice per directory in `~/.config/ybuild/config.json`.

## Layout

- `src/` — the verified library. Every decision lives here, each with a
  contract proved by Verus:
  - `systems/` — one module per build system (detection, commands, and for
    Make, CMake, Just, Python and JavaScript a step function that asks for
    one action at a time), and the dispatch over all known systems;
  - `session.rs` — the course of a run: custom command, remembered
    preference, detection, the user's pick, recording what was chosen;
  - `cli.rs` — reading the command line with pico-args;
  - `config.rs`, `json.rs` — the configuration document, read and written
    with tinyjson;
  - `binaries.rs` — finding the most recently built executable;
  - `ignore.rs` — which changes watch mode ignores, from the project's
    `.gitignore` (globs with `*`, `?` and `**`, anchored and directory
    patterns, negations; not backslash escapes or bracket classes);
  - `text.rs`, `order.rs`, `select.rs`, `logger.rs`, `error.rs` — helpers.
- `app/` — the program: it performs the file, process and terminal work that
  the library's actions ask for and reports back what happened.
- `tests/` — tests of the library on concrete inputs.
