# botchling

Ingestion service for game-server events: the server sends one binary record
per datagram on a Unix socket; the service stores every event and keeps, per
logged-in character, the timing statistics from which a bot score is computed
when the character logs out.

- `src/` is the verified library (Verus): record decoding (`domain::event`,
  `domain::wire`), per-session bookkeeping (`domain::session`), the worker's
  state machine (`application::worker`), configuration and log-level rules
  (`infrastructure::config`, `infrastructure::logger`), number/text helpers
  (`text`) and the MongoDB connection settings (`infrastructure::mongo`).
- `app/` is the program around it: socket, MongoDB, Postgres, Discord webhook,
  tracing output, environment reading, and the floating-point statistics
  (Welford mean/deviation, delay averages) that finish a session's score.
- `tests/` exercises the library on concrete records and event sequences.

Records are little-endian: a header of tag (u8), timestamp (i64), account id
(u32) and character id (u32), followed by the fields of the tagged event;
text fields are fixed-width and NUL-padded.

The teleport record (tag 4) is the one layout not fixed by the server's
other records: it is assumed here to carry only the destination map name,
right after the header (33 bytes in all).
