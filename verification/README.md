# rastercar

The Rastercar vehicle tracking API: organizations register vehicles, GPS
trackers and SIM cards, manage users and access levels, and receive tracker
positions from a message broker.

## Layout

- `src/` is the library, verified with Verus. It holds the rules of the API:
  payload validation, the decisions of each route (which request is refused,
  with which status and message, and what is written), session and token
  rules, password checks, tracker event routing, subscription plans,
  pagination arithmetic, upload names and storage keys, and the contents of
  the emails the API requests, permission checks and JSON web tokens. Each
  public function states its result in its contract, up to what the clock
  or a random salt decides; the laws that relate several functions are proof functions
  next to them (for example `lemma_routing_key_roundtrip`,
  `lemma_user_audience_roundtrip`, `lemma_upload_name_keeps_extension`).
- `app/` is the server around it: HTTP routes (axum), database access
  (sea-orm), the broker connection (lapin), CORS and request tracing, and
  configuration. Each handler reads what the library needs, calls it, and
  performs what it decides.
- `tests/` exercises the library on concrete values.

Calls into `bcrypt`, `validator`, `jsonwebtoken` and `chrono` are made from the library
through small trusted wrappers whose contracts say what those crates
promise; everything else in `src/` is proved.
