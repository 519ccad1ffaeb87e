# mt

A desktop client library for Meshtastic radios, written in Verus: the rules of
the client are executable Rust whose behaviour is stated in `requires` /
`ensures` contracts and proved.

Layout:

- `src/codec` — the stream framing of the serial/TCP link (magic, length,
  payload) with its decode/encode laws.
- `src/proto` — the protobuf wire format the radio speaks (varints, fields),
  the schemas that incoming payloads are checked against, and the messages
  the client reads and writes.
- `src/domain` — nodes, channels, messages, settings, the device snapshot, the
  handshake state machine, channel share links and configuration export.
- `src/session` — what the client does with each frame from the radio and
  each command from the user: handshake fragments, outgoing packets, pending
  acknowledgements.
- `src/persist` — the row encodings of the message and node history and the
  saved connection profiles.
- `src/transport` — the transport-level rules (BLE address matching, error
  texts, the scripted mock link).
- `src/ui` — the state and decisions behind each screen: chat, node table,
  settings drafts, alerts, reconnect backoff, map tile scheduling, logs and
  the packet inspector.
- `src/cli.rs` — argument parsing and the connect loop's decisions for the
  command-line tool.
- `tests/` — tests on concrete values, run against the compiled library.
- `app/` — the command-line program: serial, TCP and BLE links, the async
  session loop, and the SQLite/TOML storage, around the library.
