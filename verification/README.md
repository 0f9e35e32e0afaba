# ucb_mscs_courses_core

Shared core of the courses services, written in Verus.

- `src/` — the verified library: health status and reporter state
  (`health`), debug/release helpers (`debug`), configuration records
  (`config`, `importer`), Sentry client settings and trace sampling
  (`sentry`, over the infix search in `text`), routing of log events to
  Sentry (`tracing`) and the courses API handler (`courses`).
- `app/` — the API service program: configuration loading, Sentry and
  `tracing` set-up, async health reporting, signal handling and the gRPC
  server.
- `tests/` — tests of the library.
