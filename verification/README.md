# moat

Authentication, room membership and scoped token minting for Media over QUIC
relays, with the Privacy Pass issuer that backs anonymous access.

- `src/` is the verified library (Verus): session tokens, roles and room rules,
  the request flows of the HTTP endpoints as state machines, invite links,
  C4M (CAT for MoQ) tokens signed as COSE_Sign1, CBOR re-encoding, Privacy Pass
  challenges, attester signatures, the issuer's request checks and Google ID
  token verification.
  Calls into `base64`, `ciborium`, `cat-token`, `p256`, `ed25519-dalek`, `sha2`,
  `uuid`, `rand`, `chrono`, `jsonwebtoken` and `serde_json` go through small trusted wrappers
  whose contracts are stated in `src/`.
- `app/` is the servers around it: axum handlers that run the library's state
  machines against PostgreSQL, Google's identity service, the minter and the
  issuer; the OpenAPI description; the web pages; and the `pp-issuer` mode
  (`moat pp-issuer ...`) that blind-signs token requests with RSA keys.
- `tests/` exercises the library on concrete values.

Two entries of `Cargo.toml` are version pins for crates that others pull in,
not crates the code calls: `rsa` fixes the version that
`blind-rsa-signatures` builds against, and `zip` the version that
`utoipa-swagger-ui` bundles its assets with.
