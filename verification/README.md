# pota_api

The request logic of a POTA (Parks on the Air) web API, verified with Verus.

- `src/` — the verified library: the endpoint table (`routes`), the reference
  queries built from request parameters (`query`), the look-back window of
  the spots and alerts endpoints (`activity`), the multipart uploads
  (`upload`), the shared state (`state`) and the server settings
  (`settings`).
- `tests/` — tests of the library on concrete requests.
- `app/` — the axum server around it: handlers, router, service registry and
  repository interfaces, which depend on the service and domain crates of the
  wider project.
