# vrf_oracle

A verifiable random function oracle for Soroban, verified with Verus.

A requester records a seed and gets back a request id. The oracle answers
with a BLS12-381 signature over the seed; the contract accepts it only when a
pairing check against the registered oracle public key passes, and stores
`sha256(proof)` as the request's random value.

Layout:

- `src/encoding.rs` — big-endian numbers and the byte-level form of point
  encodings that the host accepts.
- `src/crypto.rs` — the Soroban host's SHA-256 and BLS12-381 functions, each
  behind a trusted wrapper whose result is named, plus trap-free point checks.
- `src/vrf.rs` — the VRF construction: base point, `-1` scalar, `verify`,
  `sign`, `pubkey`.
- `src/contract.rs` — the contract's state, its operations and their exact
  outcomes as spec functions.
- `src/laws.rs` — properties that span operations, proved over those outcomes.
- `src/sequences.rs` — properties over any sequence of calls: ids never
  reused, random values only from verified proofs, pending requests and the
  key read back until changed.
- `app/lib.rs` — the deployed contract: authorization, storage, events.
- `tests/` — scenarios run against the real host functions.
