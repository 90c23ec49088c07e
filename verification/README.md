# ClipLink

ClipLink keeps the plain-text clipboards of two computers in step over a ZeroTier network.

- `src/` is the library: protocol, connection logic, configuration, clipboard and settings rules,
  written in Verus. Its functions state what they do; of the two that read the clock, nothing is
  stated but how a reading is taken. The promises that span several functions are proved as lemmas
  (`network/laws.rs`, and at the end of the other modules).
- `src/system.rs` holds what the library takes on trust from other crates and from the standard
  library: UUIDs, SHA-256, the random source, the host name, UTF-8 decoding and the clock. One more
  such item, `String::push`, stands in `src/text.rs`.
- `app/` is the program around it: sockets, timers, files, the system clipboard, the tray and the
  window. It tells the library what happens and does what the library says.
- `tests/` runs the library on concrete values.

A connection is a state machine. `NetworkManager` takes events (`ConnEvent`) and answers with
actions (`Action`); `network/model.rs` says which actions and which next state belong to an event.
