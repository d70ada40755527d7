# lore_auth_oidc

An OpenID Connect login adapter for Lore: browser logins at an OIDC provider
become Lore authentication tokens, which Lore clients exchange for repository
authorization tokens.

The library under `src/` is verified with Verus:

- `config.rs` resolves the adapter's settings from its environment, with every
  default and every refusal stated.
- `store.rs` keeps login sessions and the user directory: sessions expire,
  are bounded in number, and move from pending to completed exactly once.
- `jwt.rs` grants repository resources, builds token claims, checks token
  types and publishes the signing key.
- `oidc.rs` reads ID token claims and resolves a user's identity from them.
- `grpc.rs` and `web.rs` decide the answers of the gRPC API and of the
  browser login pages from what the store, the provider and the token checks
  gave.
- `text.rs` holds the string operations the rest relies on.

`app/` is the program around the library: it reads the environment and the
files it names, runs the OIDC network exchanges, signs and verifies JWTs, and
serves HTTP.
