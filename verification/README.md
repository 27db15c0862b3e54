# zebra_ledger

Verified building blocks for generating Zcash test chains and for running
the node's async runtime, written in Verus.

- `src/parameters.rs`: heights, networks, the network upgrade schedule, and
  which upgrade is current at a height.
- `src/ledger.rs`: `LedgerState` and `LedgerStateOverride`, the configuration
  that generated blocks start from, and their proptest strategies.
- `src/block.rs`: block hashes, header serialization and hashing, generated
  headers and blocks, and linked partial chains.
- `src/commitment.rs`: the meaning of a header's commitment bytes at a height.
- `src/crypto.rs`: SHA-256 and Jubjub base field decoding, from outside crates.
- `src/strategy.rs`: proptest's boxed strategy type.
- `src/runtime.rs`: the Tokio component and the decisions of a run: the
  shutdown signal first, then a runtime shutdown with a timeout, then a
  graceful or forced exit.
- `app/`: unverified glue: signal handling and the polling loop that drives
  `run_step`, and proptest `Arbitrary` implementations on wrapper types.
