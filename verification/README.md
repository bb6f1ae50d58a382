# einvoice-bridge

A local-first middleware between a Point-of-Sale (POS) and the Malaysian LHDN
MyInvois e-invoicing platform, with its rules verified by Verus.

The POS hands an invoice to the bridge over HTTP. The bridge keeps it in a local
SQLite database, answers `202 Accepted`, and background workers deliver it to
LHDN, follow its validation and cancel it on request. If LHDN is unreachable the
invoice stays `Pending` and is retried with backoff.

- `src/` is the library. It decides: what a request or a reply changes in the
  tables, which events are due, what is sent to LHDN, when to retry and when to
  give up. Every function states its contract. `src/laws.rs` and `src/laws/` hold
  what is proved of all of it together: in every state that the tables can reach,
  references are unique, every `Pending` invoice has an event in the outbox, an
  invoice moves only along its lifecycle, and cancellation happens only within
  72 hours of validation.
- `app/` is the program around it: settings, SQLite, HTTP server, HTTP client,
  the workers' loops.
- `tests/` runs the library with the real crates behind it.
- `extras/migrations/` is the schema of the database, which the program applies
  when it starts.
