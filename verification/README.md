# webcrypto_jws

JWS signing and verification keys backed by the browser's `WebCrypto` API,
with the key logic verified by Verus.

- `src/` is the verified library: the `WebCrypto` dictionaries for generating,
  importing and using keys for each JWS algorithm (`helpers`), the signing
  keys and their metadata (`asymmetric::signer`), the choice of verifying keys
  from public JWKs, the step-by-step import of a verifying key
  (`KeyImport`), key matching and the outcome of a verification
  (`asymmetric::verification`), what key generation asks `WebCrypto` for
  (`key_gen_request`), the JWK model (`jwk`), the verifier platform
  (`factory`), and laws relating signing and verification (`laws`).
- `app/` holds the asynchronous calls into `SubtleCrypto`, the JSON and
  JavaScript conversions, and the error types that carry JavaScript values.
- `tests/` exercises the library on concrete keys and algorithms.
