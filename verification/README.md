# credence_bond

Verified core of the Credence bond contract's event schema and access control.

- `src/events.rs` — every event the contract publishes: routing name, topic
  addresses and the data tuple in its published order (`ContractEvent::published`),
  what a refused check reports (`refusal_report`), with proofs that the names
  are valid, distinct host symbols and that bond lifecycle events are keyed by
  their identity.
- `src/access_control.rs`, `src/harness.rs` — the role checks (admin,
  verifiers, identity owner) over the stored roles, with their laws.
- `src/sdk.rs` — the `soroban_sdk` items the library relies on.
- `app/` — the host side: encoding each published value for the host, and the
  harness contract over instance storage.
