# herdr_shell

The copy mode and agent panel of a terminal multiplexer client, verified
with Verus.

- `src/copy_*.rs`: copy mode as a state machine. Keys (with vim-style counts,
  `f`/`t` finds and `i`/`a` text objects) move a cursor over a pane's
  scrollback, select text and search it. Work that needs the pane's text
  (word motions, objects, finds, searches) goes to the endpoint one request at
  a time; later work and keys wait in queues and replay when the response
  arrives. Every response is checked against the session, pane, cursor and
  content revision it was sent for, so late or stale answers are ignored.
- `src/shell.rs`: the entry points: surface updates, input batches and
  endpoint responses.
- `src/agent_panel.rs`: the agents of every machine, grouped under one
  collapsible header per machine (flat when sorted by priority or filtered),
  with the on-screen layout and scroll reveal of the panel.
- `src/text_editor.rs`, `src/selection.rs`, `src/types.rs`: the search prompt's
  single-line editor, selections and the plain data exchanged with the host.
- `app/`: conversion of terminal events and endpoint error codes for the
  library.
