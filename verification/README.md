# debug_counter

A connection counter for debugging: it counts active connections and the
connections opened and closed since the last report, and renders one log line
per report period.

- `src/` (Verus, verified): `counter` (the counter, its reports and each
  reporter tick), `clock` (the time label, rendered by chrono from a clock
  reading), `decimal` (decimal text of integers), `laws` (properties across
  operations), `fixtures` (the data and mock-service reply used by HTTP client
  tests).
- `app/`: sharing the counter between tasks, the periodic reporter task on
  tokio, reading the local clock, and logging (tracing).
- `tests/`: tests of the library from outside.
