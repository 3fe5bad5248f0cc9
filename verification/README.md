# vigia

Per-cluster forward-auth for the saguão fleet: the ingress sends every gated
request to `/auth` as a subrequest, and vigia answers 200 (allow), 400, 401
(sign in) or 403 (denied).

- `src/` is the verified library (Verus): hostname parsing (`hostname`), the
  derived passaporte URLs and query encoding (`config`), the key set and key
  lookup (`jwks`), token extraction and verification (`token`), the cached
  values (`cache`) and the per-request decision state machine (`auth`), with
  their laws as proof functions.
- `app/` is the HTTP service around it: axum routes, the moka caches, the
  key-set refresher (reqwest) and the authorization call.
- `tests/` exercise the library on concrete values.
