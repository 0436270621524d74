# classcard

A verified client library for Classcard word battles, written in Verus.

- `src/socket.rs` — the player's session (`Socket`): its state, the messages it
  sends to the battle server, and how answers are scored, buffered and reported.
- `src/laws.rs` — properties of whole runs of answers: every answer is
  reported exactly once and in order, the score keeps account, the buffer
  holds the answers since the last report, and the buffer size behaves as the
  `--buffer-size` option promises.
- `src/endpoint.rs` — the battle server's port and websocket address.
- `src/messages.rs` — the messages exchanged with the server.
- `src/console.rs` — reading lines, numbers and answers typed by the player.
- `src/text.rs` — decimal formatting of integers.
- `src/error.rs` — the library's errors.
- `app/` — the terminal program: keyboard, websocket, HTTP and JSON, around
  the library.
