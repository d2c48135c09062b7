# Zed Terminal

A standalone terminal application. Its logic is a verified library: what a
command line and a startup configuration ask for, which window they open, what
the menus and the command palette offer, and what the reports say.

## Layout

- `src/` is the library. The contract of each function says over mathematical
  values what it returns, and Verus proves it.
  - `text`, `error`, `name_map`: texts, error chains, and maps ordered by name.
  - `path_parts`, `paths`, `directory`: paths as the platform divides them,
    where files are kept, and what a working directory resolves to.
  - `cli`: the arguments and which of them go together.
  - `config`, `layout`, `validation`: the startup configuration, the layouts in
    it, and whether they all resolve.
  - `command`, `launch_tab`, `launch`: commands, tabs, and the window or other
    work that a command line asks for.
  - `lookups`: which directories have to be looked up on disk beforehand.
  - `config_files`, `default_profile`, `keymap`, `doctor`: putting
    configuration files in place, changing the default profile, and
    diagnostics, each as decisions about what was found.
  - `profiles`, `report`, `actions`, `menu`, `palette`: what users see.
  - `terminal_tab`, `window`: panes, and how tabs are opened.
  - `laws`: what relates these functions to each other.
- `tests/` runs the library with its outside crates.
- `app/` is the program around it: arguments, files, settings and the user
  interface. It is built inside the Zed workspace, whose crates it uses.

## How the library meets the disk

The library does no I/O. The program looks up what the library names (the
directories of a command line and a configuration, the paths of files) and
hands over what it found as plain values. Steps that alternate with I/O are
functions from what happened last to what is to be done next.

## What is trusted

Outside functions are called through a few items whose contracts are not
proved: `shlex::split`, `shellexpand::tilde_with_context`, and of the standard
library `String::push`, `char::to_lowercase` and the `Debug` form of a text.
Each states above it what it claims.
