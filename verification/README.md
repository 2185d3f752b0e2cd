# umamoe_ingest

The decisions of the veteran ingest service, verified with Verus.

- `src/auth.rs`, `src/auth_common.rs`: which requests are let in. A request leads to a
  step (a call of the authentication backend, or a rejection), and the backend's answer
  leads to a decision.
- `src/ingest.rs`: which uploads are taken, and which account they go to.
- `src/models.rs`, `src/plan.rs`: how an uploaded character is compared with its stored
  row, and what an upload inserts, updates and deletes.
- `src/http.rs`, `src/json.rs`, `src/time.rs`: what is taken from axum, serde_json and
  chrono, and what is relied on of them.
- `src/text.rs`, `src/errors.rs`: texts and errors.
- `app/`: the server around the library, with its HTTP and database access.
