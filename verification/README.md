# tou_http

The HTTP layer of TOU.Rent (lease of university property by tender), with
its logic verified by Verus.

- `src/` is the verified library: request checks, the error contract
  (`application/problem+json`), the CSRF double-submit check, the
  idempotency journal's decisions, the sealed envelope of application files,
  the registry cursor, sign-in and password rules, the OpenID Connect flow's
  decisions and URLs, the roles of an `id_token`, and the content of the
  printed forms (announcement, admission, failure and winner No 2
  protocols, acts of handover and return). Calls into outside crates
  (`aes-gcm`, `hkdf`, `sha2`, `argon2`, `rand`, `time`, `uuid`,
  `rust_decimal`, `serde_json`, `fred`) stand behind small trusted wrappers
  whose contracts say what the crate documents.
- `tests/` runs the library with the real outside crates.
- `app/` is the service around it: axum middleware and responses, the Redis
  journal, the environment, and the serde forms of the library's values.
