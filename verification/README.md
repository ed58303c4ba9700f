# square

The logic of a small publishing service, verified with Verus.

- `src/` is the library: password digests (`db`), login claims and the login
  decision (`auth`), errors and JSON replies (`common`), cookie sessions
  (`session`), and what each HTTP route answers (`rest`); `text` holds the
  decimal and hex renderings they share.
- `app/` is the server around it: diesel queries, JSON web tokens, axum
  extractors and routes, and `main`. It performs the reads and writes and
  hands their results to the library, which decides the answer.
- `tests/` runs the library on concrete values.
