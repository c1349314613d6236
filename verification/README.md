# rukari

A Discord gateway bot for Python's hikari, split in two:

- `src/` — the verified library (Verus): gateway intents (`intents`), a shard's
  presence and voice state and the payloads it announces (`presence`), shards
  and guild routing (`shard`), the bot's configuration, shards and run/close
  lifecycle (`bot`), and the classification of raw gateway payloads (`event`).
- `app/` — the Python extension module: Python objects and argument reading,
  the asyncio bridge, the twilight gateway cluster, and the HTTP request for
  the recommended shard count.
- `tests/` — tests of the library on concrete values.
