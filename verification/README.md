# AkurAI Monitor

A monitor of hosts and applications, verified with Verus. It keeps measured values and log lines,
raises alerts by rules, tells them on webhook and pi-bun channels, and manages all of these records.

- `src/` is the verified library. It decides which statements a request runs on the database, how
  the request is answered, when an alert is triggered or resolved, and in which steps a notification
  is delivered. Each function states its result exactly; the functions named `law_…` state what
  holds of several of them together.
- `app/` runs what the library decides: the web handlers, the SQLite connection, the HTTP clients,
  the alert log and the live event stream. It compares and formats the floating-point values, which
  the library carries by their bits.
- `tests/` runs the library, the schema among it on an in-memory SQLite database.

What the library takes from other crates without proof stands in `fields.rs` (the objects of
serde_json), `endpoint.rs` (the URL parser of reqwest), `clock.rs` (the clock of chrono), and, for
two functions of the standard library, in `record.rs` and `text.rs`.
