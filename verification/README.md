# odra_casper

The Casper backend of the Odra smart-contract framework, with its logic verified in Verus.

- `src/` — the verified library:
  - `address` — Casper addresses (account or contract package), their storage keys and byte
    encoding, with the round-trip laws;
  - `odra_address` — Odra's byte-carrying address and the conversions to and from it;
  - `call_stack` — which address the caller and the running contract are;
  - `codegen` — the source text of a contract's WASM entry points and installer;
  - `storage`, `naming`, `text` — dictionary keys, artefact names, decimal numbers;
  - `test_env` — the decisions of the in-memory test environment (acting account, deploy
    hashes, error reporting, event positions);
  - `backend` — the runtime functions that decide something.
- `app/` — the host side: calls into the contract runtime and the in-memory engine.
- `tests/` — tests of the library.
