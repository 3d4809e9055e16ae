# gui_scale

A desktop front-end for the Tailscale CLI, with its logic verified in Verus.

- `src/` is the verified library:
  - `text`: lines, whitespace-separated words, substring search and trimming of
    command output, each with a mathematical model.
  - `devices`: the device list read from `tailscale status`.
  - `status`: the connection, SSH, route and exit-node flags read from
    `tailscale debug prefs`, and the address from `tailscale ip -4`.
  - `commands`: the argument lists of the CLI commands and what their outcomes mean.
  - `config`: the interface settings and themes.
  - `window`: the main window's state machine: each user action updates the state
    and returns the outside work to do.
  - `ssh`: per-device values (running SSH processes, typed commands).
  - `tabs`, `gui`: the navigation tabs and the compact three-setting front-end.
- `app/` is the program: it runs the commands, shows the window and performs
  the work the library asks for; `--compact` shows the compact window instead.
- `tests/` runs the library on concrete inputs.
