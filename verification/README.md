# kunobi_jev

Client configuration for the TypeSafe System One API and for Jev on OpenRouter, verified
with Verus.

- `src/` is the verified library. `client::builder` holds the builder and the build itself;
  `client::settings` states how settings resolve (code, then environment, then defaults) and
  which problems stop a build, in which order; `client::laws` proves what holds of every build.
  `client::backend`, `client::env`, `client::address`, `client::headers`, `credentials`,
  `retry` and `text` hold the pieces they rest on, including the trusted wrappers around
  `reqwest`, `secrecy`, `tokio` and `std`.
- `app/` is ordinary Rust around it: reading the process environment, the retry policy
  (floating point), credential providers (async), the HTTP client, and serde decoding.
- `tests/` runs the library on concrete values.
