# stellar_wrap

Verified core of the Stellar Wrap registry contract, written in Verus.

- `src/storage_types.rs`: the wrap lifecycle state machine, its laws, and the
  contract's plain data types.
- `src/governance.rs`: the rules for opening an admin proposal.
- `src/revoke.rs`: the admin lookup and the revocation counter.
- `src/events.rs`: the `(version, domain, action)` topic convention and its law.
- `src/host_types.rs`: the Soroban host types the library carries unchanged.
- `app/`: Soroban glue (storage schema with `#[contracttype]`, ledger access,
  authorization, event publication) around the library.
