# server

The message layer and request logic of a small game server, verified with
Verus.

- `src/` is the verified library:
  - `store` — a slab-like store whose freed slots form a free list;
  - `value`, `convert`, `fields`, `error` — MessagePack values and how
    message fields are read from and written to them;
  - `msg` — every message and its encoding, with laws on reading back what
    was written: most messages come back whole; a combat offer, a combat
    start, an opponent without a user, a knock-out capture and a portal origin
    do not (their encodings lose or overwrite a field), and a result's data
    comes back with the same pairs, possibly reordered;
  - `handlers`, `event` — what the server answers to each message, and the
    offers of wild combats.
- `app/` is the program around it: sockets, threads, MessagePack on the wire,
  JSON Web Tokens, and in-memory tables in place of the database.
- `tests/` runs the library on concrete values.
