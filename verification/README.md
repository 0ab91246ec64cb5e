# konnect

An MCP server for KiCAD and a live schematic viewer, as a library of verified decisions and the
programs around it.

- `src/`: the library, verified with Verus.
  - `server`, `protocol`: the state of a session and the messages that the server builds itself.
  - `stdio`, `http`: what the two transports do with a line or a request.
  - `board`: board edits inside a commit that is pushed or rolled back.
  - `viewer`, `watcher`: what the viewer runs, reads and shows, and when it renders again.
  - `error`: the errors of schematic files.
  - `json`, `text`, `paths`: JSON text, plain text and the parts of paths.
- `app/`: the transports over sockets and standard streams, and the window of the viewer.
- `tests/`: tests of the library.

A message handler, an IPC client and a tool router are supplied by the program that uses the
library.
