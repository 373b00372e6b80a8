# rust-idp

The core of an OpenID Connect identity provider (authorization code flow,
RS256 id_tokens), verified with Verus.

- `src/` — the verified library: configuration, the authorization-code store,
  the `/authorize` and `/token` decisions, the discovery and JWKS documents,
  JWS signing, the text encodings they use, and `laws.rs` with the properties
  that span several operations (single use of codes, a code issued by
  `/authorize` is redeemed by `/token`).
- `app/` — the HTTP server (axum): reads the environment and the clock, holds
  the store behind a mutex, writes the discovery and JWKS documents and the
  answers as JSON.
- `tests/` — tests of the library on concrete values.
