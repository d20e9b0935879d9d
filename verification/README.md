# game_server

A WebSocket game server whose decisions are verified with Verus.

- `src/server.rs`: the session table (admission under a capacity, token
  assignment, removal of dead sessions, echo of received messages) and the
  per-connection reader's reaction to what it observes, with the laws that
  tie these steps together.
- `src/message.rs`, `src/wire.rs`: the reading side of the `Message`/`Login`
  FlatBuffers schema; `root_as_message` checks a buffer so that every
  accessor of the message it returns reads inside the buffer.
- `src/builder.rs`: the writing side of the schema: the builder's usage
  protocol, the bytes it writes and the fields it records are in the
  contracts, so that each written table is stated to read back as the
  arguments it was written with.
- `src/readback.rs`: what a finished buffer reads back as: a table keeps
  reading the same when more is written in front of it, so the root of a
  finished buffer (with or without a size prefix), the login it carries and
  the login's strings read back, from the bytes `finished_data` returns, as
  what they were written with.
- `src/error.rs`: why a client connection ends.
- `src/slab_ops.rs`: the trusted contracts of the `slab` crate.
- `app/main.rs`: the program: sockets, tasks and channels, driven by the
  library's decisions.
