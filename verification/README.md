# chui

Verified core of the Chui node tools, written in Verus.

- `src/uint.rs` — 256-bit integers (arithmetic by `primitive-types`).
- `src/gwei.rs` — lamport/gwei conversion, with its round-trip laws.
- `src/address.rs` — native and EVM addresses; the EVM address of a native
  program account (Keccak-256 by `sha3`).
- `src/evm_loader.rs` — EVM loader instructions: accounts, requests, framing
  of encoded data, the state account and the plain transfer transaction.
- `src/erasure.rs` — erasure sessions over `reed-solomon-erasure`, with the
  law that decoding restores what encoding protected.
- `src/rpc_custom_error.rs`, `src/decimal.rs` — the JSON-RPC error object of
  each server error.
- `src/balance.rs` — totalling the lamports of EVM accounts.
- `app/` — JSON-RPC and serde forms of library types, and the command line of
  the EVM state tool.
