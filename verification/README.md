# Lorewyld

The rules behind a self-hosted role-playing campaign server, verified with
Verus.

- `src/` — the library: validation, permissions, query construction, bundle
  import planning, record assembly, slugs, join codes, tag handling, session
  resolution and password checks, each with a contract proved by Verus, plus
  the laws that relate them (public `lemma_*` proof functions).
- `tests/` — executable tests of the library.
- `app/` — the HTTP server around it (axum + SQLite): handlers perform the
  database and network I/O and ask the library for every decision.
