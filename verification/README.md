# ostrich-connect

A file-transfer client with a protocol-agnostic backend, verified with Verus.

## Layout

- `src/` — the library, verified:
  - `types`, `error`, `command`: connection profiles and their validation, errors
    with stable codes, and the command/response contract of all frontends;
  - `registry`, `backend`: the protocol registry and the command dispatcher, which
    holds the open sessions and the shared configuration and answers each command
    in two steps (`begin` says what outside work is needed, `finish_*` takes its
    outcome);
  - `ftp`, `sftp`: what the FTP and SFTP adapters accept, plan and read;
  - `remote_path`, `config`, `text`, `table`, `ids`, `order`: paths, the place of
    the configuration file, text helpers, keyed tables, session identifiers and the
    listing order;
  - `form`, `navigator`, `tui`, `view`: the terminal frontend's state machine (key
    presses and backend responses in, state and requested work out) and the text
    of its screens;
  - `cli`, `desktop`: the decisions of the `oc` command line and the desktop window.
- `tests/` — tests of the library.
- `app/` — the programs around the library: network and disk work, the terminal
  drawing loop, the `oc` command line, the JSON files and the C ABI.
