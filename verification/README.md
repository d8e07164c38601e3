# mtp_tui

A two-pane terminal file manager for MTP devices (Android phones, e-readers):
the local file system on the left, the device storage on the right; browse,
push, pull, delete, rename, create folders and inspect object metadata.

The library under `src/` holds the logic with Verus contracts:

- `app`, `state`, `pane`, `textinput`, `entries`, `sort`, `messages`: the
  application state machine: keys, dialogs, the two panes and their
  selections, listing order, device paths, the walk to the configured device
  folder and the order of a transfer's device operations.
- `config`, `format`, `inspector`, `view`, `text`: configuration paths, size
  and metadata formatting, and what the screen shows.
- `container`, `stream`, `session`, `listing`, `usb`, `device`: a verified
  model of the PTP/MTP protocol steps: container encoding and parsing, the
  streamed and buffered data phases as state machines, transaction numbering,
  the OpenSession handshake, folder listing plans, USB interface and endpoint
  selection. The running program does not use these modules: `app/` talks to
  the device through the mtp-rs crate, which does the protocol work itself.
  They are exercised by the tests in `tests/`.

`app/` is the terminal program: it reads keys, draws with ratatui, reads the
host file system, and runs the device operations on worker threads through
mtp-rs, passing keys, listings and results to the library's state machine
and doing the work it asks for. `tests/` exercises the library on concrete
values.
