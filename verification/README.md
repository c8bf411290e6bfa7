# creditra_credit — verified freeze controls and event surface

The draw-freeze controls and the event ABI of the Creditra credit contract
(Soroban), as a library verified with Verus.

- `src/types.rs` — freeze reasons, line statuses, errors, accounts (held as
  strkey text), and what text a Soroban symbol may hold.
- `src/freeze.rs` — `FreezeStore`, the model of what the contract stores for
  the global draw switch and the per-line freeze records, the freeze
  operations with exact contracts, and the laws that relate them.
- `src/events.rs` — event payloads, the fixed topic of every kind of event,
  the `publish_*` builders, and the laws that every topic name is a valid
  symbol and that no two kinds share a topic.
- `src/host.rs` — the call into `soroban_sdk` the library makes: building
  topic symbols, each from a name proved to be a valid symbol.
- `app/lib.rs` — the Soroban side: contract-encoded copies of the types,
  storage reads and writes, the ledger sequence, admin authorization and
  event publishing.
- `tests/` — tests on concrete values.
