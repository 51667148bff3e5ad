# common

A WebSocket chat, split in two.

- `src/` is the verified library:
  - `utils`: the messages (`ClientMessage`, `ServerMessage`), how a typed
    line becomes a message (`ClientMessage::parse`), what the server relays
    for a message, and the messages' bytes on the wire (`to_json`,
    `from_json`), with the round-trip laws.
  - `text`: whitespace, words, keywords and joining of typed lines.
  - `wire`: bincode's layout of integers and strings, and the calls into
    bincode that produce and read it.
  - `session`: what the server does for each event on a connection, and the
    laws it keeps (unique names, no echo, leaving on every finish).
  - `client`: what the client sends for a typed line and shows for a frame.
- `app/` runs the programs: `server <addr>` and `client <addr> <username>`.
  It does the network, terminal and database work and carries out the
  actions the library decides.
