# opencli-rs

The decisions behind the `opencli-rs` command line, verified with Verus.

- `src/` is the library. Every function states in its contract what it returns;
  the functions named `law_...` state what holds of several of them together.
  - `cli` describes the command line; `dispatch` tells what a parsed one asks for;
    `catalog` holds the sites, their commands and the external programs.
  - `execution` steps through the command of a site, `session` through a session
    with the browser.
  - `adapters`, `upload` and `storage` talk about adapters: looking for them,
    choosing one, sending one, keeping one. `report` holds what is said to the user.
  - `command_line`, `json` and `percent` state what is relied on of `clap`,
    `serde_json` and `urlencoding`; `text` and `number` are the basics.
- `tests/` runs the library with these crates.
- `app/` is the program around it: the environment, the browser, the network, the
  disk and the terminal.
