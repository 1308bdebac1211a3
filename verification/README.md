# rate_limited_api

An HTTP API service that limits how often each client may call each URL and
guards some URLs by access level, with its decisions verified by Verus.

- `src/` is the verified library: the data model (`urls`, `ips`, `tokens`,
  `users`), instants and the clock (`clock`), the database's replies and the
  middlewares' refusals (`reply`), and the decisions of the service as step
  functions from a state and an outcome to the next state and action:
  the rate limiter (`rate_limit`), the access check (`rbac`), login and
  sign-up (`auth`) and the registration of the start-up URLs (`bootstrap`).
- `app/` is the server around it: the `actix-web` rate-limiting and
  access-control middlewares, which run the library's steps, the test
  endpoints, the `diesel` database actor, the start-up registration, token
  signing and decoding with `jsonwebtoken`, and conversions to `chrono`,
  `ipnetwork` and `std::net`. It does not serve login or sign-up: their
  decisions are in `src/auth.rs`, but the password hashing, password check,
  body schemas and user actor they need are not part of this project's
  sources. Settings are read from the environment at start-up, and
  migrations from the `migrations` directory at run time.
- `tests/` runs the library on concrete values.
