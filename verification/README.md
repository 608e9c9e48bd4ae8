# lean_multisig_py

Python bindings for XMSS multi-signature aggregation, with a verified core.

- `src/` (verified with Verus)
  - `container.rs`: the opaque SSZ containers for single- and multi-message
    proof blobs, their encoding and decoding, and the round-trip laws.
  - `message.rs`: message hashes and the (message, slot) bindings a proof
    attests to.
  - `checks.rs`: the argument checks around aggregation, merging and
    verification, and the gathering of per-item decoding outcomes.
  - `error.rs`: the errors those checks report.
- `app/`: the Python module itself (pyo3), the calls into the aggregation
  prover and verifier, and the SSZ trait impls, which delegate to `src/`.
- `tests/`: tests of the library on concrete values.
