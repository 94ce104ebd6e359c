# wimsey

Workload credentials for WIMSE (Workload Identity in Multi-System
Environments): workload identifiers, Workload Identity Tokens (WITs),
Workload Proof Tokens (WPTs), HTTP message signatures under the WIMSE profile,
Workload Identity Certificates (mTLS), a WIT issuer, and the cross-implementation
conformance vectors.

The library in `src/` is written in Verus and verified: its public functions
carry contracts that the verifier proves, over mathematical models of the
values (sequences of characters and bytes, the views of keys, requests and
claims). A few small helpers and trait impls carry none.

- `identifier` parses `spiffe://` and `wimse://` identifiers.
- `jose` holds the signature algorithms (EdDSA, ES256), keys and JWKs;
  `keyfile` the JWK files the command line reads and writes.
- `compact` frames, signs, re-signs and rewrites JWS compact serializations;
  `wit` and `wpt` verify tokens in the drafts' order of checks (frame, header,
  signature, claims) over the decoded header and claim set that the caller
  hands in.
- `httpsig` signs and verifies RFC 9421 message signatures under the WIMSE
  profile, including the field syntax and its round trips.
- `mtls` verifies a Workload Identity Certificate against its CA and extracts
  the identifier.
- `issuer` decides what WIT a request is granted; `command` is what the command
  line decides for signing and verifying requests.
- `conformance` generates the conformance vectors and runs their checks: all
  of the identifier, WIC-verification and HTTP-signature suites, and the
  negative cases of the WIT and WPT suites. Re-issuing a WIT or WPT and
  verifying its positive case need the token's JSON, and run in `app/`.

The cryptography, Base64, SHA-256, X.509 parsing and the random source are the
outside crates' (`ed25519-dalek`, `p256`, `base64`, `sha2`, `x509-parser`,
`getrandom`), called through small trusted wrappers whose contracts are stated
in `src/crypto.rs`, `src/mtls.rs` and `src/issuer.rs`.

`app/` is the program around the library: the `wimsey` command line, the HTTP
issuer (axum), JSON (serde) for tokens and vectors, certificate issuance
(rcgen), and the end-to-end demo.
